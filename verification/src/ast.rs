use vstd::prelude::*;

use crate::span::{Span, SpanView, Spanned};

verus! {

broadcast use vstd::std_specs::vec::group_vec_axioms;
// ---------------------------------------------------------------------------
// Expressions
// ---------------------------------------------------------------------------
/// An expression node. Each variant carries its span; value-producing
/// variants also carry an optional slot for a later-filled inferred type,
/// `None` until a type-checking pass fills it.
#[derive(Debug, PartialEq)]
pub enum Expression {
    BinaryOp(BinaryOp),
    FunctionCall(FunctionCall),
    BlockExpression(BlockExpression),
    IfExpression(IfExpression),
    Identifier(Identifier),
    IntegerLiteral(IntegerLiteral),
    FloatLiteral(FloatLiteral),
    StringLiteral(StringLiteral),
    BooleanLiteral(BooleanLiteral),
}

#[derive(Debug, PartialEq)]
pub struct IntegerLiteral {
    pub value: i64,
    pub span: Span,
}

/// A float literal, carried as its source text (`digits '.' digits`).
/// The machine float it denotes is produced outside the verified core.
#[derive(Debug, PartialEq)]
pub struct FloatLiteral {
    pub value: String,
    pub span: Span,
}

#[derive(Debug, PartialEq)]
pub struct StringLiteral {
    pub value: String,
    pub span: Span,
}

#[derive(Debug, PartialEq)]
pub struct BooleanLiteral {
    pub value: bool,
    pub span: Span,
}

#[derive(Debug, PartialEq)]
pub struct Identifier {
    pub name: String,
    pub span: Span,
}

#[derive(Debug, PartialEq)]
pub struct BinaryOp {
    pub operator: BinaryOperator,
    pub left: Box<Expression>,
    pub right: Box<Expression>,
    pub span: Span,
    pub inferred_type: Option<Identifier>,
}

#[derive(Debug, PartialEq, Eq, Structural, Clone, Copy)]
pub enum BinaryOperator {
    Add,
    Subtract,
    Multiply,
    Divide,
    Equals,
    NotEquals,
    LessThan,
    GreaterThan,
    And,
    Or,
}

#[derive(Debug, PartialEq)]
pub struct FunctionCall {
    pub function_name: Identifier,
    pub arguments: Vec<Expression>,
    pub span: Span,
    pub inferred_type: Option<Identifier>,
}

#[derive(Debug, PartialEq)]
pub struct BlockExpression {
    pub statements: Vec<Statement>,
    pub final_expression: Option<Box<Expression>>,
    pub inferred_type: Option<Identifier>,
    pub span: Span,
}

#[derive(Debug, PartialEq)]
pub struct IfExpression {
    pub condition: Box<Expression>,
    pub then_branch: BlockExpression,
    pub else_branch: Option<BlockExpression>,
    /// Must be consistent between branches.
    pub inferred_type: Option<Identifier>,
    pub span: Span,
}

// ---------------------------------------------------------------------------
// Statements
// ---------------------------------------------------------------------------
#[derive(Debug, PartialEq)]
pub enum Statement {
    VariableDeclaration(VariableDeclaration),
    FunctionDeclaration(FunctionDeclaration),
    StructDeclaration(StructDeclaration),
    ExpressionStatement(ExpressionStatement),
    ReturnStatement(ReturnStatement),
    BreakStatement(BreakStatement),
}

/// `let IDENT = EXPR ;` — always immediately initialized.
#[derive(Debug, PartialEq)]
pub struct VariableDeclaration {
    pub identifier: Identifier,
    pub initializer: Expression,
    pub span: Span,
}

/// `fn IDENT ( PARAMS ) -> TYPE { STMTS }`.
#[derive(Debug, PartialEq)]
pub struct FunctionDeclaration {
    pub identifier: Identifier,
    pub parameters: Vec<Parameter>,
    pub return_type: Identifier,
    pub body: Vec<Statement>,
    pub span: Span,
}

/// `IDENT : TYPE` inside a parameter list.
#[derive(Debug, PartialEq)]
pub struct Parameter {
    pub identifier: Identifier,
    pub declared_type: Identifier,
    pub span: Span,
}

/// `struct IDENT ...` in one of its three shapes.
#[derive(Debug, PartialEq)]
pub enum StructDeclaration {
    NamedStruct { identifier: Identifier, fields: Vec<NamedFieldDeclaration>, span: Span },
    TupleStruct { identifier: Identifier, fields: Vec<TupleFieldDeclaration>, span: Span },
    UnitStruct { identifier: Identifier, span: Span },
}

#[derive(Debug, PartialEq)]
pub struct NamedFieldDeclaration {
    pub identifier: Identifier,
    pub declared_type: Identifier,
    pub span: Span,
}

#[derive(Debug, PartialEq)]
pub struct TupleFieldDeclaration {
    pub declared_type: Identifier,
    pub span: Span,
}

#[derive(Debug, PartialEq)]
pub struct ExpressionStatement {
    pub expression: Expression,
    pub span: Span,
}

/// `return [EXPR] ;`.
#[derive(Debug, PartialEq)]
pub struct ReturnStatement {
    pub value: Option<Expression>,
    pub span: Span,
}

#[derive(Debug, PartialEq)]
pub struct BreakStatement {
    pub value: Option<Expression>,
    pub span: Span,
}

/// The root of a parsed source file: its statements in order.
#[derive(Debug, PartialEq)]
pub struct Program {
    pub statements: Vec<Statement>,
    pub span: Span,
}

// ---------------------------------------------------------------------------
// The mathematical images of the nodes
// ---------------------------------------------------------------------------
pub enum ExpressionView {
    BinaryOp(BinaryOpView),
    FunctionCall(FunctionCallView),
    BlockExpression(BlockExpressionView),
    IfExpression(IfExpressionView),
    Identifier(IdentifierView),
    IntegerLiteral(IntegerLiteralView),
    FloatLiteral(FloatLiteralView),
    StringLiteral(StringLiteralView),
    BooleanLiteral(BooleanLiteralView),
}

pub struct IntegerLiteralView {
    pub value: i64,
    pub span: SpanView,
}

pub struct FloatLiteralView {
    pub value: Seq<char>,
    pub span: SpanView,
}

pub struct StringLiteralView {
    pub value: Seq<char>,
    pub span: SpanView,
}

pub struct BooleanLiteralView {
    pub value: bool,
    pub span: SpanView,
}

pub struct IdentifierView {
    pub name: Seq<char>,
    pub span: SpanView,
}

pub struct BinaryOpView {
    pub operator: BinaryOperator,
    pub left: Box<ExpressionView>,
    pub right: Box<ExpressionView>,
    pub span: SpanView,
    pub inferred_type: Option<IdentifierView>,
}

pub struct FunctionCallView {
    pub function_name: IdentifierView,
    pub arguments: Seq<ExpressionView>,
    pub span: SpanView,
    pub inferred_type: Option<IdentifierView>,
}

pub struct BlockExpressionView {
    pub statements: Seq<StatementView>,
    pub final_expression: Option<Box<ExpressionView>>,
    pub inferred_type: Option<IdentifierView>,
    pub span: SpanView,
}

pub struct IfExpressionView {
    pub condition: Box<ExpressionView>,
    pub then_branch: BlockExpressionView,
    pub else_branch: Option<BlockExpressionView>,
    pub inferred_type: Option<IdentifierView>,
    pub span: SpanView,
}

pub enum StatementView {
    VariableDeclaration(VariableDeclarationView),
    FunctionDeclaration(FunctionDeclarationView),
    StructDeclaration(StructDeclarationView),
    ExpressionStatement(ExpressionStatementView),
    ReturnStatement(ReturnStatementView),
    BreakStatement(BreakStatementView),
}

pub struct VariableDeclarationView {
    pub identifier: IdentifierView,
    pub initializer: ExpressionView,
    pub span: SpanView,
}

pub struct FunctionDeclarationView {
    pub identifier: IdentifierView,
    pub parameters: Seq<ParameterView>,
    pub return_type: IdentifierView,
    pub body: Seq<StatementView>,
    pub span: SpanView,
}

pub struct ParameterView {
    pub identifier: IdentifierView,
    pub declared_type: IdentifierView,
    pub span: SpanView,
}

pub enum StructDeclarationView {
    NamedStruct { identifier: IdentifierView, fields: Seq<NamedFieldDeclarationView>, span: SpanView },
    TupleStruct { identifier: IdentifierView, fields: Seq<TupleFieldDeclarationView>, span: SpanView },
    UnitStruct { identifier: IdentifierView, span: SpanView },
}

pub struct NamedFieldDeclarationView {
    pub identifier: IdentifierView,
    pub declared_type: IdentifierView,
    pub span: SpanView,
}

pub struct TupleFieldDeclarationView {
    pub declared_type: IdentifierView,
    pub span: SpanView,
}

pub struct ExpressionStatementView {
    pub expression: ExpressionView,
    pub span: SpanView,
}

pub struct ReturnStatementView {
    pub value: Option<ExpressionView>,
    pub span: SpanView,
}

pub struct BreakStatementView {
    pub value: Option<ExpressionView>,
    pub span: SpanView,
}

pub struct ProgramView {
    pub statements: Seq<StatementView>,
    pub span: SpanView,
}

// ---------------------------------------------------------------------------
// View functions
// ---------------------------------------------------------------------------
pub open spec fn ident_view(i: Identifier) -> IdentifierView {
    IdentifierView { name: i.name@, span: i.span@ }
}

pub open spec fn ident_option_view(i: Option<Identifier>) -> Option<IdentifierView> {
    match i {
        Some(id) => Some(ident_view(id)),
        None => None,
    }
}

pub open spec fn parameter_view(p: Parameter) -> ParameterView {
    ParameterView {
        identifier: ident_view(p.identifier),
        declared_type: ident_view(p.declared_type),
        span: p.span@,
    }
}

pub open spec fn named_field_view(f: NamedFieldDeclaration) -> NamedFieldDeclarationView {
    NamedFieldDeclarationView {
        identifier: ident_view(f.identifier),
        declared_type: ident_view(f.declared_type),
        span: f.span@,
    }
}

pub open spec fn tuple_field_view(f: TupleFieldDeclaration) -> TupleFieldDeclarationView {
    TupleFieldDeclarationView { declared_type: ident_view(f.declared_type), span: f.span@ }
}

pub open spec fn struct_decl_view(d: StructDeclaration) -> StructDeclarationView {
    match d {
        StructDeclaration::NamedStruct { identifier, fields, span } => {
            StructDeclarationView::NamedStruct {
                identifier: ident_view(identifier),
                fields: named_field_views(fields@),
                span: span@,
            }
        },
        StructDeclaration::TupleStruct { identifier, fields, span } => {
            StructDeclarationView::TupleStruct {
                identifier: ident_view(identifier),
                fields: tuple_field_views(fields@),
                span: span@,
            }
        },
        StructDeclaration::UnitStruct { identifier, span } => {
            StructDeclarationView::UnitStruct { identifier: ident_view(identifier), span: span@ }
        },
    }
}

pub open spec fn expr_view(e: Expression) -> ExpressionView
    decreases e,
{
    match e {
        Expression::BinaryOp(n) => ExpressionView::BinaryOp(binary_op_view(n)),
        Expression::FunctionCall(n) => ExpressionView::FunctionCall(function_call_view(n)),
        Expression::BlockExpression(n) => ExpressionView::BlockExpression(block_expr_view(n)),
        Expression::IfExpression(n) => ExpressionView::IfExpression(if_expr_view(n)),
        Expression::Identifier(n) => ExpressionView::Identifier(ident_view(n)),
        Expression::IntegerLiteral(n) => ExpressionView::IntegerLiteral(
            IntegerLiteralView { value: n.value, span: n.span@ },
        ),
        Expression::FloatLiteral(n) => ExpressionView::FloatLiteral(
            FloatLiteralView { value: n.value@, span: n.span@ },
        ),
        Expression::StringLiteral(n) => ExpressionView::StringLiteral(
            StringLiteralView { value: n.value@, span: n.span@ },
        ),
        Expression::BooleanLiteral(n) => ExpressionView::BooleanLiteral(
            BooleanLiteralView { value: n.value, span: n.span@ },
        ),
    }
}

pub open spec fn binary_op_view(n: BinaryOp) -> BinaryOpView
    decreases n,
{
    BinaryOpView {
        operator: n.operator,
        left: Box::new(expr_view(*n.left)),
        right: Box::new(expr_view(*n.right)),
        span: n.span@,
        inferred_type: ident_option_view(n.inferred_type),
    }
}

pub open spec fn function_call_view(n: FunctionCall) -> FunctionCallView
    decreases n,
{
    FunctionCallView {
        function_name: ident_view(n.function_name),
        arguments: expr_views(n.arguments@),
        span: n.span@,
        inferred_type: ident_option_view(n.inferred_type),
    }
}

pub open spec fn block_expr_view(n: BlockExpression) -> BlockExpressionView
    decreases n,
{
    BlockExpressionView {
        statements: stmt_views(n.statements@),
        final_expression: match n.final_expression {
            Some(e) => Some(Box::new(expr_view(*e))),
            None => None,
        },
        inferred_type: ident_option_view(n.inferred_type),
        span: n.span@,
    }
}

pub open spec fn if_expr_view(n: IfExpression) -> IfExpressionView
    decreases n,
{
    IfExpressionView {
        condition: Box::new(expr_view(*n.condition)),
        then_branch: block_expr_view(n.then_branch),
        else_branch: match n.else_branch {
            Some(b) => Some(block_expr_view(b)),
            None => None,
        },
        inferred_type: ident_option_view(n.inferred_type),
        span: n.span@,
    }
}

pub open spec fn stmt_view(st: Statement) -> StatementView
    decreases st,
{
    match st {
        Statement::VariableDeclaration(n) => StatementView::VariableDeclaration(var_decl_view(n)),
        Statement::FunctionDeclaration(n) => StatementView::FunctionDeclaration(func_decl_view(n)),
        Statement::StructDeclaration(n) => StatementView::StructDeclaration(struct_decl_view(n)),
        Statement::ExpressionStatement(n) => StatementView::ExpressionStatement(
            expr_stmt_view(n),
        ),
        Statement::ReturnStatement(n) => StatementView::ReturnStatement(return_stmt_view(n)),
        Statement::BreakStatement(n) => StatementView::BreakStatement(break_stmt_view(n)),
    }
}

pub open spec fn var_decl_view(n: VariableDeclaration) -> VariableDeclarationView
    decreases n,
{
    VariableDeclarationView {
        identifier: ident_view(n.identifier),
        initializer: expr_view(n.initializer),
        span: n.span@,
    }
}

pub open spec fn func_decl_view(n: FunctionDeclaration) -> FunctionDeclarationView
    decreases n,
{
    FunctionDeclarationView {
        identifier: ident_view(n.identifier),
        parameters: parameter_views(n.parameters@),
        return_type: ident_view(n.return_type),
        body: stmt_views(n.body@),
        span: n.span@,
    }
}

pub open spec fn expr_stmt_view(n: ExpressionStatement) -> ExpressionStatementView
    decreases n,
{
    ExpressionStatementView { expression: expr_view(n.expression), span: n.span@ }
}

pub open spec fn return_stmt_view(n: ReturnStatement) -> ReturnStatementView
    decreases n,
{
    ReturnStatementView {
        value: match n.value {
            Some(e) => Some(expr_view(e)),
            None => None,
        },
        span: n.span@,
    }
}

pub open spec fn break_stmt_view(n: BreakStatement) -> BreakStatementView
    decreases n,
{
    BreakStatementView {
        value: match n.value {
            Some(e) => Some(expr_view(e)),
            None => None,
        },
        span: n.span@,
    }
}

/// The views of a sequence of statements, elementwise.
pub open spec fn stmt_views(sts: Seq<Statement>) -> Seq<StatementView>
    decreases sts,
{
    if sts.len() == 0 {
        Seq::empty()
    } else {
        seq![stmt_view(sts[0])] + stmt_views(sts.subrange(1, sts.len() as int))
    }
}

/// The views of a sequence of expressions, elementwise.
pub open spec fn expr_views(es: Seq<Expression>) -> Seq<ExpressionView>
    decreases es,
{
    if es.len() == 0 {
        Seq::empty()
    } else {
        seq![expr_view(es[0])] + expr_views(es.subrange(1, es.len() as int))
    }
}

/// The views of a parameter list, elementwise.
pub open spec fn parameter_views(ps: Seq<Parameter>) -> Seq<ParameterView> {
    Seq::new(ps.len(), |i: int| parameter_view(ps[i]))
}

/// The views of the fields of a named-field struct, elementwise.
pub open spec fn named_field_views(fs: Seq<NamedFieldDeclaration>) -> Seq<
    NamedFieldDeclarationView,
> {
    Seq::new(fs.len(), |i: int| named_field_view(fs[i]))
}

/// The views of the fields of a tuple struct, elementwise.
pub open spec fn tuple_field_views(fs: Seq<TupleFieldDeclaration>) -> Seq<
    TupleFieldDeclarationView,
> {
    Seq::new(fs.len(), |i: int| tuple_field_view(fs[i]))
}

pub open spec fn program_view(p: Program) -> ProgramView {
    ProgramView { statements: stmt_views(p.statements@), span: p.span@ }
}

/// `stmt_views` maps elementwise: it keeps the length and views each entry.
pub proof fn lemma_stmt_views_elementwise(sts: Seq<Statement>)
    ensures
        stmt_views(sts).len() == sts.len(),
        forall|i: int| 0 <= i < sts.len() ==> stmt_views(sts)[i] == stmt_view(#[trigger] sts[i]),
    decreases sts.len(),
{
    if sts.len() > 0 {
        let sub = sts.subrange(1, sts.len() as int);
        lemma_stmt_views_elementwise(sub);
        assert forall|i: int| 0 <= i < sts.len() implies stmt_views(sts)[i] == stmt_view(
            #[trigger] sts[i],
        ) by {
            if i > 0 {
                assert(sub[i - 1] == sts[i]);
                assert(stmt_views(sub)[i - 1] == stmt_view(sub[i - 1]));
            }
        }
    }
}

// ---------------------------------------------------------------------------
// View trait impls
// ---------------------------------------------------------------------------
impl View for Expression {
    type V = ExpressionView;

    open spec fn view(&self) -> ExpressionView {
        expr_view(*self)
    }
}

impl View for Statement {
    type V = StatementView;

    open spec fn view(&self) -> StatementView {
        stmt_view(*self)
    }
}

impl View for Identifier {
    type V = IdentifierView;

    open spec fn view(&self) -> IdentifierView {
        ident_view(*self)
    }
}

impl View for IntegerLiteral {
    type V = IntegerLiteralView;

    open spec fn view(&self) -> IntegerLiteralView {
        IntegerLiteralView { value: self.value, span: self.span@ }
    }
}

impl View for FloatLiteral {
    type V = FloatLiteralView;

    open spec fn view(&self) -> FloatLiteralView {
        FloatLiteralView { value: self.value@, span: self.span@ }
    }
}

impl View for StringLiteral {
    type V = StringLiteralView;

    open spec fn view(&self) -> StringLiteralView {
        StringLiteralView { value: self.value@, span: self.span@ }
    }
}

impl View for BooleanLiteral {
    type V = BooleanLiteralView;

    open spec fn view(&self) -> BooleanLiteralView {
        BooleanLiteralView { value: self.value, span: self.span@ }
    }
}

impl View for BinaryOp {
    type V = BinaryOpView;

    open spec fn view(&self) -> BinaryOpView {
        binary_op_view(*self)
    }
}

impl View for FunctionCall {
    type V = FunctionCallView;

    open spec fn view(&self) -> FunctionCallView {
        function_call_view(*self)
    }
}

impl View for BlockExpression {
    type V = BlockExpressionView;

    open spec fn view(&self) -> BlockExpressionView {
        block_expr_view(*self)
    }
}

impl View for IfExpression {
    type V = IfExpressionView;

    open spec fn view(&self) -> IfExpressionView {
        if_expr_view(*self)
    }
}

impl View for VariableDeclaration {
    type V = VariableDeclarationView;

    open spec fn view(&self) -> VariableDeclarationView {
        var_decl_view(*self)
    }
}

impl View for FunctionDeclaration {
    type V = FunctionDeclarationView;

    open spec fn view(&self) -> FunctionDeclarationView {
        func_decl_view(*self)
    }
}

impl View for Parameter {
    type V = ParameterView;

    open spec fn view(&self) -> ParameterView {
        parameter_view(*self)
    }
}

impl View for StructDeclaration {
    type V = StructDeclarationView;

    open spec fn view(&self) -> StructDeclarationView {
        struct_decl_view(*self)
    }
}

impl View for NamedFieldDeclaration {
    type V = NamedFieldDeclarationView;

    open spec fn view(&self) -> NamedFieldDeclarationView {
        named_field_view(*self)
    }
}

impl View for TupleFieldDeclaration {
    type V = TupleFieldDeclarationView;

    open spec fn view(&self) -> TupleFieldDeclarationView {
        tuple_field_view(*self)
    }
}

impl View for ExpressionStatement {
    type V = ExpressionStatementView;

    open spec fn view(&self) -> ExpressionStatementView {
        expr_stmt_view(*self)
    }
}

impl View for ReturnStatement {
    type V = ReturnStatementView;

    open spec fn view(&self) -> ReturnStatementView {
        return_stmt_view(*self)
    }
}

impl View for BreakStatement {
    type V = BreakStatementView;

    open spec fn view(&self) -> BreakStatementView {
        break_stmt_view(*self)
    }
}

impl View for Program {
    type V = ProgramView;

    open spec fn view(&self) -> ProgramView {
        program_view(*self)
    }
}

// ---------------------------------------------------------------------------
// Span accessors
// ---------------------------------------------------------------------------
impl ExpressionView {
    /// The span of an expression, whichever variant carries it.
    pub open spec fn span(self) -> SpanView {
        match self {
            ExpressionView::BinaryOp(n) => n.span,
            ExpressionView::FunctionCall(n) => n.span,
            ExpressionView::BlockExpression(n) => n.span,
            ExpressionView::IfExpression(n) => n.span,
            ExpressionView::Identifier(n) => n.span,
            ExpressionView::IntegerLiteral(n) => n.span,
            ExpressionView::FloatLiteral(n) => n.span,
            ExpressionView::StringLiteral(n) => n.span,
            ExpressionView::BooleanLiteral(n) => n.span,
        }
    }
}

impl StatementView {
    /// The span of a statement, whichever variant carries it.
    pub open spec fn span(self) -> SpanView {
        match self {
            StatementView::VariableDeclaration(n) => n.span,
            StatementView::FunctionDeclaration(n) => n.span,
            StatementView::StructDeclaration(n) => n.span(),
            StatementView::ExpressionStatement(n) => n.span,
            StatementView::ReturnStatement(n) => n.span,
            StatementView::BreakStatement(n) => n.span,
        }
    }
}

impl StructDeclarationView {
    /// The span of a struct declaration, whichever shape carries it.
    pub open spec fn span(self) -> SpanView {
        match self {
            StructDeclarationView::NamedStruct { span, .. } => span,
            StructDeclarationView::TupleStruct { span, .. } => span,
            StructDeclarationView::UnitStruct { span, .. } => span,
        }
    }
}

impl Spanned for Expression {
    open spec fn spec_span(&self) -> SpanView {
        self@.span()
    }

    fn span(&self) -> (s: Span) {
        match self {
            Expression::BinaryOp(n) => n.span,
            Expression::FunctionCall(n) => n.span,
            Expression::BlockExpression(n) => n.span,
            Expression::IfExpression(n) => n.span,
            Expression::Identifier(n) => n.span,
            Expression::IntegerLiteral(n) => n.span,
            Expression::FloatLiteral(n) => n.span,
            Expression::StringLiteral(n) => n.span,
            Expression::BooleanLiteral(n) => n.span,
        }
    }
}

impl Spanned for Statement {
    open spec fn spec_span(&self) -> SpanView {
        self@.span()
    }

    fn span(&self) -> (s: Span) {
        match self {
            Statement::VariableDeclaration(n) => n.span,
            Statement::FunctionDeclaration(n) => n.span,
            Statement::StructDeclaration(n) => match n {
                StructDeclaration::NamedStruct { span, .. } => *span,
                StructDeclaration::TupleStruct { span, .. } => *span,
                StructDeclaration::UnitStruct { span, .. } => *span,
            },
            Statement::ExpressionStatement(n) => n.span,
            Statement::ReturnStatement(n) => n.span,
            Statement::BreakStatement(n) => n.span,
        }
    }
}

impl Spanned for StructDeclaration {
    open spec fn spec_span(&self) -> SpanView {
        self@.span()
    }

    fn span(&self) -> (s: Span) {
        match self {
            StructDeclaration::NamedStruct { span, .. } => *span,
            StructDeclaration::TupleStruct { span, .. } => *span,
            StructDeclaration::UnitStruct { span, .. } => *span,
        }
    }
}

} // verus!
