pub mod environment;

use vstd::prelude::*;

use crate::ast::{
    Expression, ExpressionView, Program, ProgramView, Statement, StatementView, stmt_view,
    stmt_views,
};
use crate::lexer::{
    LexOutcome, TokenView, digits_value, is_digit_char, is_ident_char, is_ident_start_char,
    keyword_token, lemma_digits_value_nonneg, lemma_scan_digits_exact, lemma_scan_ident_exact,
    lemma_skip_spaces_exact, next_lexeme,
};
use crate::parser::{ParseOutcome, Parser, ParserError, ParserErrorView, spec_parse_program};
use crate::span::{Span, SpanView, Spanned};
use self::environment::{
    Environment, EnvironmentError, EnvironmentErrorView, Value, ValueView, env_lookup,
};

verus! {

/// Why an execution could not be completed.
#[derive(Debug, PartialEq)]
pub enum RuntimeError {
    /// The source did not parse; the run fails with the parse failure.
    ParserError(ParserError),
    /// A name could not be resolved during evaluation.
    EnvironmentError(EnvironmentError),
    /// A construct of the grammar's vocabulary that the evaluator does not
    /// yet execute, and where it stands. Such constructs fail the run
    /// explicitly rather than being silently skipped.
    UnsupportedConstruct(Span),
}

/// The mathematical image of a [`RuntimeError`].
pub enum RuntimeErrorView {
    ParserError(ParserErrorView),
    EnvironmentError(EnvironmentErrorView),
    UnsupportedConstruct(SpanView),
}

impl View for RuntimeError {
    type V = RuntimeErrorView;

    open spec fn view(&self) -> RuntimeErrorView {
        match self {
            RuntimeError::ParserError(e) => RuntimeErrorView::ParserError(e@),
            RuntimeError::EnvironmentError(e) => RuntimeErrorView::EnvironmentError(e@),
            RuntimeError::UnsupportedConstruct(sp) => RuntimeErrorView::UnsupportedConstruct(sp@),
        }
    }
}

// ---------------------------------------------------------------------------
// The specification-level evaluator
// ---------------------------------------------------------------------------
/// What evaluating an expression against an environment yields: literals
/// evaluate to their corresponding values (a float literal to the value
/// carrying its text), an identifier to its innermost binding — or a
/// "variable not found" failure where no scope binds it. Every other
/// expression kind is an unsupported construct.
pub open spec fn spec_evaluate_expression(
    e: ExpressionView,
    env: Seq<Map<Seq<char>, ValueView>>,
) -> Result<ValueView, RuntimeErrorView> {
    match e {
        ExpressionView::IntegerLiteral(n) => Ok(ValueView::Int(n.value)),
        ExpressionView::FloatLiteral(n) => Ok(ValueView::Float(n.value)),
        ExpressionView::StringLiteral(n) => Ok(ValueView::Str(n.value)),
        ExpressionView::BooleanLiteral(n) => Ok(ValueView::Bool(n.value)),
        ExpressionView::Identifier(n) => match env_lookup(env, n.name) {
            Some(v) => Ok(v),
            None => Err(
                RuntimeErrorView::EnvironmentError(
                    EnvironmentErrorView::VariableNotFound(n.name),
                ),
            ),
        },
        _ => Err(RuntimeErrorView::UnsupportedConstruct(e.span())),
    }
}

/// What executing one statement does to the environment: a variable
/// declaration evaluates its initializer and binds the name in the
/// innermost scope. Every other statement kind is an unsupported
/// construct.
pub open spec fn spec_execute_statement(
    st: StatementView,
    env: Seq<Map<Seq<char>, ValueView>>,
) -> Result<Seq<Map<Seq<char>, ValueView>>, RuntimeErrorView> {
    match st {
        StatementView::VariableDeclaration(d) => match spec_evaluate_expression(
            d.initializer,
            env,
        ) {
            Ok(v) => Ok(env.update(env.len() - 1, env[env.len() - 1].insert(d.identifier.name, v))),
            Err(e) => Err(e),
        },
        _ => Err(RuntimeErrorView::UnsupportedConstruct(st.span())),
    }
}

/// Executing statements in order, stopping at the first failure.
pub open spec fn spec_execute_statements(
    sts: Seq<StatementView>,
    env: Seq<Map<Seq<char>, ValueView>>,
) -> Result<Seq<Map<Seq<char>, ValueView>>, RuntimeErrorView>
    decreases sts.len(),
{
    if sts.len() == 0 {
        Ok(env)
    } else {
        match spec_execute_statement(sts[0], env) {
            Ok(env2) => spec_execute_statements(sts.subrange(1, sts.len() as int), env2),
            Err(e) => Err(e),
        }
    }
}

/// Executing a program: its statements in order against one environment.
pub open spec fn spec_execute_program(
    p: ProgramView,
    env: Seq<Map<Seq<char>, ValueView>>,
) -> Result<Seq<Map<Seq<char>, ValueView>>, RuntimeErrorView> {
    spec_execute_statements(p.statements, env)
}

/// The lexemes of `let <ident> = <int>;`: the five tokens in order, and
/// the end of the input after the semicolon.
proof fn lemma_let_statement_lexemes(ident: Seq<char>, digits: Seq<char>)
    requires
        ident.len() > 0,
        is_ident_start_char(ident[0]),
        forall|i: int| 0 <= i < ident.len() ==> is_ident_char(#[trigger] ident[i]),
        keyword_token(ident) is None,
        digits.len() > 0,
        forall|i: int| 0 <= i < digits.len() ==> is_digit_char(#[trigger] digits[i]),
        digits_value(digits) <= i64::MAX as int,
    ensures
        ({
            let s = "let "@ + ident + " = "@ + digits + ";"@;
            let k = ident.len() as int;
            let d = digits.len() as int;
            &&& s.len() == 8 + k + d
            &&& next_lexeme(s, 0) == LexOutcome::Next(TokenView::Let, 0, 3)
            &&& next_lexeme(s, 3) == LexOutcome::Next(TokenView::Identifier(ident), 4, 4 + k)
            &&& next_lexeme(s, 4 + k) == LexOutcome::Next(TokenView::Assign, 5 + k, 6 + k)
            &&& next_lexeme(s, 6 + k) == LexOutcome::Next(
                TokenView::IntegerLiteral(digits_value(digits) as i64),
                7 + k,
                7 + k + d,
            )
            &&& next_lexeme(s, 7 + k + d) == LexOutcome::Next(
                TokenView::Semicolon,
                7 + k + d,
                8 + k + d,
            )
            &&& next_lexeme(s, 8 + k + d) == LexOutcome::End
        }),
{
    reveal_strlit("let ");
    reveal_strlit(" = ");
    reveal_strlit(";");
    let a = "let "@;
    let w = " = "@;
    let semi = ";"@;
    assert(a =~= seq!['l', 'e', 't', ' ']);
    assert(w =~= seq![' ', '=', ' ']);
    assert(semi =~= seq![';']);
    let k = ident.len() as int;
    let d = digits.len() as int;
    let with_ident = a + ident;
    let with_eq = with_ident + w;
    let with_digits = with_eq + digits;
    let s = "let "@ + ident + " = "@ + digits + ";"@;
    assert(s == with_digits + semi);
    let n = s.len() as int;
    assert(n == 8 + k + d);
    // Where each piece of the input stands.
    assert(s[0] == 'l' && s[1] == 'e' && s[2] == 't' && s[3] == ' ');
    assert forall|i: int| 4 <= i < 4 + k implies s[i] == ident[i - 4] by {
        assert(s[i] == with_digits[i]);
        assert(with_digits[i] == with_eq[i]);
        assert(with_eq[i] == with_ident[i]);
        assert(with_ident[i] == ident[i - 4]);
    }
    assert(s[4 + k] == ' ' && s[5 + k] == '=' && s[6 + k] == ' ');
    assert forall|i: int| 7 + k <= i < 7 + k + d implies s[i] == digits[i - 7 - k] by {
        assert(s[i] == with_digits[i]);
        assert(with_digits[i] == digits[i - 7 - k]);
    }
    assert(s[7 + k + d] == ';');
    // The five lexemes and the end of the input.
    assert(!crate::lexer::is_space_char(ident[0]) && !is_digit_char(ident[0]));
    assert(!crate::lexer::is_space_char(digits[0]));
    lemma_skip_spaces_exact(s, 0, 0);
    lemma_scan_ident_exact(s, 0, 3);
    assert(s.subrange(0, 3) =~= seq!['l', 'e', 't']);
    assert(next_lexeme(s, 0) == LexOutcome::Next(TokenView::Let, 0, 3));
    lemma_skip_spaces_exact(s, 3, 4);
    lemma_scan_ident_exact(s, 4, 4 + k);
    assert(s.subrange(4, 4 + k) =~= ident);
    assert(next_lexeme(s, 3) == LexOutcome::Next(TokenView::Identifier(ident), 4, 4 + k));
    lemma_skip_spaces_exact(s, 4 + k, 5 + k);
    assert(next_lexeme(s, 4 + k) == LexOutcome::Next(TokenView::Assign, 5 + k, 6 + k));
    lemma_skip_spaces_exact(s, 6 + k, 7 + k);
    lemma_scan_digits_exact(s, 7 + k, 7 + k + d);
    assert(s.subrange(7 + k, 7 + k + d) =~= digits);
    lemma_digits_value_nonneg(digits);
    let v = digits_value(digits) as i64;
    assert(next_lexeme(s, 6 + k) == LexOutcome::Next(
        TokenView::IntegerLiteral(v),
        7 + k,
        7 + k + d,
    ));
    lemma_skip_spaces_exact(s, 7 + k + d, 7 + k + d);
    assert(next_lexeme(s, 7 + k + d) == LexOutcome::Next(TokenView::Semicolon, 7 + k + d, n));
    lemma_skip_spaces_exact(s, n, n);
    assert(next_lexeme(s, n) == LexOutcome::End);
    }

/// The parse of `let <ident> = <int>;`: a program of exactly one
/// variable declaration, spanning the whole input, whose initializer is
/// an integer literal carrying the digits' value.
proof fn lemma_let_statement_parse(ident: Seq<char>, digits: Seq<char>)
    requires
        ident.len() > 0,
        is_ident_start_char(ident[0]),
        forall|i: int| 0 <= i < ident.len() ==> is_ident_char(#[trigger] ident[i]),
        keyword_token(ident) is None,
        digits.len() > 0,
        forall|i: int| 0 <= i < digits.len() ==> is_digit_char(#[trigger] digits[i]),
        digits_value(digits) <= i64::MAX as int,
    ensures
        ({
            let s = "let "@ + ident + " = "@ + digits + ";"@;
            let k = ident.len() as int;
            let d = digits.len() as int;
            let n = 8 + k + d;
            spec_parse_program(s) == ParseOutcome::Parsed(
                crate::ast::ProgramView {
                    statements: seq![
                        StatementView::VariableDeclaration(
                            crate::ast::VariableDeclarationView {
                                identifier: crate::ast::IdentifierView {
                                    name: ident,
                                    span: SpanView { start: 4, end: 4 + k },
                                },
                                initializer: ExpressionView::IntegerLiteral(
                                    crate::ast::IntegerLiteralView {
                                        value: digits_value(digits) as i64,
                                        span: SpanView { start: 7 + k, end: 7 + k + d },
                                    },
                                ),
                                span: SpanView { start: 0, end: n },
                            },
                        ),
                    ],
                    span: SpanView { start: 0, end: n },
                },
                n,
            )
        }),
{
    lemma_let_statement_lexemes(ident, digits);
    let s = "let "@ + ident + " = "@ + digits + ";"@;
    let k = ident.len() as int;
    let d = digits.len() as int;
    let n = s.len() as int;
    lemma_digits_value_nonneg(digits);
    let v = digits_value(digits) as i64;
    let lit = crate::ast::IntegerLiteralView {
        value: v,
        span: SpanView { start: 7 + k, end: 7 + k + d },
    };
    let decl = crate::ast::VariableDeclarationView {
        identifier: crate::ast::IdentifierView {
            name: ident,
            span: SpanView { start: 4, end: 4 + k },
        },
        initializer: ExpressionView::IntegerLiteral(lit),
        span: SpanView { start: 0, end: n },
    };
    assert(crate::parser::spec_parse_expression(s, 6 + k) == ParseOutcome::Parsed(
        ExpressionView::IntegerLiteral(lit),
        7 + k + d,
    ));
    assert(crate::parser::spec_parse_variable_declaration(s, 0) == ParseOutcome::Parsed(decl, n));
    assert(crate::parser::spec_parse_statement(s, 0) == ParseOutcome::Parsed(
        StatementView::VariableDeclaration(decl),
        n,
    ));
    assert(crate::parser::spec_parse_statements_top(s, n) == ParseOutcome::Parsed(
        Seq::<StatementView>::empty(),
        n,
    ));
    let stmts = seq![StatementView::VariableDeclaration(decl)];
    assert(seq![StatementView::VariableDeclaration(decl)] + Seq::<StatementView>::empty()
        =~= stmts);
    assert(crate::parser::spec_parse_statements_top(s, 0) == ParseOutcome::Parsed(stmts, n));
}

/// For every input of the shape `let <ident> = <int>;` — a well-formed
/// identifier that is no keyword, and a digit string whose value fits the
/// 64-bit signed range — parsing yields exactly one statement, a variable
/// declaration whose initializer is an integer literal carrying the
/// digits' value; and executing the parsed program against any
/// environment, then looking the identifier up, yields that integer
/// value.
/// Executing a program of a single `let` statement whose initializer is
/// an integer literal binds the name to that integer in the innermost
/// scope, where a lookup then finds it.
proof fn lemma_single_let_execution(
    d: crate::ast::VariableDeclarationView,
    sp: SpanView,
    env: Seq<Map<Seq<char>, ValueView>>,
)
    requires
        env.len() >= 1,
        d.initializer is IntegerLiteral,
    ensures
        ({
            let pv = crate::ast::ProgramView {
                statements: seq![StatementView::VariableDeclaration(d)],
                span: sp,
            };
            let lit = d.initializer->IntegerLiteral_0;
            match spec_execute_program(pv, env) {
                Ok(env2) => env_lookup(env2, d.identifier.name) == Some(
                    ValueView::Int(lit.value),
                ),
                Err(_) => false,
            }
        }),
{
    let stmts = seq![StatementView::VariableDeclaration(d)];
    let lit = d.initializer->IntegerLiteral_0;
    assert(spec_evaluate_expression(d.initializer, env) == Ok::<
        ValueView,
        RuntimeErrorView,
    >(ValueView::Int(lit.value)));
    let env2 = env.update(
        env.len() - 1,
        env[env.len() - 1].insert(d.identifier.name, ValueView::Int(lit.value)),
    );
    assert(spec_execute_statement(stmts[0], env) == Ok::<
        Seq<Map<Seq<char>, ValueView>>,
        RuntimeErrorView,
    >(env2));
    assert(stmts.subrange(1, 1) =~= Seq::<StatementView>::empty());
    assert(spec_execute_statements(Seq::<StatementView>::empty(), env2) == Ok::<
        Seq<Map<Seq<char>, ValueView>>,
        RuntimeErrorView,
    >(env2));
    assert(spec_execute_statements(stmts, env) == Ok::<
        Seq<Map<Seq<char>, ValueView>>,
        RuntimeErrorView,
    >(env2));
    assert(env2[env2.len() - 1].contains_key(d.identifier.name));
    assert(env_lookup(env2, d.identifier.name) == Some(ValueView::Int(lit.value)));
}

/// For every input of the shape `let <ident> = <int>;` — a well-formed
/// identifier that is no keyword, and a digit string whose value fits the
/// 64-bit signed range — parsing yields exactly one statement, a variable
/// declaration whose initializer is an integer literal carrying the
/// digits' value; and executing the parsed program against any
/// environment, then looking the identifier up, yields that integer
/// value.
pub proof fn lemma_let_statement_round_trip(
    ident: Seq<char>,
    digits: Seq<char>,
    env: Seq<Map<Seq<char>, ValueView>>,
)
    requires
        ident.len() > 0,
        is_ident_start_char(ident[0]),
        forall|i: int| 0 <= i < ident.len() ==> is_ident_char(#[trigger] ident[i]),
        keyword_token(ident) is None,
        digits.len() > 0,
        forall|i: int| 0 <= i < digits.len() ==> is_digit_char(#[trigger] digits[i]),
        digits_value(digits) <= i64::MAX as int,
        env.len() >= 1,
    ensures
        ({
            let s = "let "@ + ident + " = "@ + digits + ";"@;
            spec_parse_program(s) matches ParseOutcome::Parsed(pv, _) && {
                &&& pv.statements.len() == 1
                &&& pv.statements[0] matches StatementView::VariableDeclaration(d) && {
                    &&& d.identifier.name == ident
                    &&& d.initializer matches ExpressionView::IntegerLiteral(lit) && {
                        &&& lit.value as int == digits_value(digits)
                        &&& match spec_execute_program(pv, env) {
                            Ok(env2) => env_lookup(env2, ident) == Some(ValueView::Int(lit.value)),
                            Err(_) => false,
                        }
                    }
                }
            }
        }),
{
    lemma_let_statement_parse(ident, digits);
    lemma_digits_value_nonneg(digits);
    let k = ident.len() as int;
    let d = digits.len() as int;
    let n = 8 + k + d;
    let decl = crate::ast::VariableDeclarationView {
        identifier: crate::ast::IdentifierView {
            name: ident,
            span: SpanView { start: 4, end: 4 + k },
        },
        initializer: ExpressionView::IntegerLiteral(
            crate::ast::IntegerLiteralView {
                value: digits_value(digits) as i64,
                span: SpanView { start: 7 + k, end: 7 + k + d },
            },
        ),
        span: SpanView { start: 0, end: n },
    };
    lemma_single_let_execution(decl, SpanView { start: 0, end: n }, env);
}

// ---------------------------------------------------------------------------
// The runtime
// ---------------------------------------------------------------------------
/// The execution core: owns the environment for the duration of a run and
/// walks programs against it.
#[derive(Debug)]
pub struct Runtime {
    pub environment: Environment,
}

impl Runtime {
    /// Creates a runtime with a fresh environment: one top-level scope,
    /// empty.
    pub fn new() -> (r: Runtime)
        ensures
            r.environment.wf(),
            r.environment@ =~= seq![Map::<Seq<char>, ValueView>::empty()],
    {
        Runtime { environment: Environment::new() }
    }

    /// Evaluates one expression against the current environment, exactly
    /// as [`spec_evaluate_expression`] says.
    fn evaluate_expression(&self, e: &Expression) -> (r: Result<Value, RuntimeError>)
        ensures
            match r {
                Ok(v) => spec_evaluate_expression(e@, self.environment@) == Ok::<
                    ValueView,
                    RuntimeErrorView,
                >(v@),
                Err(err) => spec_evaluate_expression(e@, self.environment@) == Err::<
                    ValueView,
                    RuntimeErrorView,
                >(err@),
            },
    {
        match e {
            Expression::IntegerLiteral(n) => Ok(Value::Int(n.value)),
            Expression::FloatLiteral(n) => Ok(Value::Float(n.value.clone())),
            Expression::StringLiteral(n) => Ok(Value::Str(n.value.clone())),
            Expression::BooleanLiteral(n) => Ok(Value::Bool(n.value)),
            Expression::Identifier(n) => match self.environment.get_variable(n.name.as_str()) {
                Some(v) => Ok(v.clone()),
                None => Err(
                    RuntimeError::EnvironmentError(
                        EnvironmentError::VariableNotFound(n.name.clone()),
                    ),
                ),
            },
            _ => Err(RuntimeError::UnsupportedConstruct(e.span())),
        }
    }

    /// Executes one statement against the current environment, exactly as
    /// [`spec_execute_statement`] says.
    fn execute_statement(&mut self, st: &Statement) -> (r: Result<(), RuntimeError>)
        requires
            old(self).environment.wf(),
        ensures
            final(self).environment.wf(),
            match r {
                Ok(()) => spec_execute_statement(st@, old(self).environment@) == Ok::<
                    Seq<Map<Seq<char>, ValueView>>,
                    RuntimeErrorView,
                >(final(self).environment@),
                Err(err) => spec_execute_statement(st@, old(self).environment@) == Err::<
                    Seq<Map<Seq<char>, ValueView>>,
                    RuntimeErrorView,
                >(err@) && final(self).environment@ == old(self).environment@,
            },
    {
        match st {
            Statement::VariableDeclaration(d) => {
                let value = match self.evaluate_expression(&d.initializer) {
                    Ok(v) => v,
                    Err(e) => {
                        return Err(e);
                    },
                };
                match self.environment.declare_variable(d.identifier.name.clone(), value) {
                    Ok(()) => Ok(()),
                    Err(e) => Err(RuntimeError::EnvironmentError(e)),
                }
            },
            _ => Err(RuntimeError::UnsupportedConstruct(st.span())),
        }
    }

    /// Executes a program's statements in order against the runtime's
    /// environment, exactly as [`spec_execute_program`] says: the
    /// environment afterwards is the one the model computes, and the first
    /// failing statement ends the run with its error.
    pub fn execute_program(&mut self, program: Program) -> (r: Result<(), RuntimeError>)
        requires
            old(self).environment.wf(),
        ensures
            final(self).environment.wf(),
            match r {
                Ok(()) => spec_execute_program(program@, old(self).environment@) == Ok::<
                    Seq<Map<Seq<char>, ValueView>>,
                    RuntimeErrorView,
                >(final(self).environment@),
                Err(err) => spec_execute_program(program@, old(self).environment@) == Err::<
                    Seq<Map<Seq<char>, ValueView>>,
                    RuntimeErrorView,
                >(err@),
            },
    {
        let ghost all = stmt_views(program.statements@);
        let ghost env0 = self.environment@;
        let n = program.statements.len();
        let mut i: usize = 0;
        proof {
            crate::ast::lemma_stmt_views_elementwise(program.statements@);
            assert(all.subrange(0, all.len() as int) =~= all);
        }
        while i < n
            invariant
                i <= n,
                n == program.statements.len(),
                env0 == old(self).environment@,
                all == stmt_views(program.statements@),
                all.len() == n,
                self.environment.wf(),
                spec_execute_statements(all, env0) == spec_execute_statements(
                    all.subrange(i as int, all.len() as int),
                    self.environment@,
                ),
                forall|j: int|
                    0 <= j < n ==> all[j] == stmt_view(#[trigger] program.statements@[j]),
            decreases n - i,
        {
            let ghost envi = self.environment@;
            let ghost rest = all.subrange(i as int, all.len() as int);
            match self.execute_statement(&program.statements[i]) {
                Ok(()) => {},
                Err(e) => {
                    proof {
                        assert(rest[0] == all[i as int]);
                        assert(spec_execute_statement(rest[0], envi) matches Err(ev) && ev == e@);
                        assert(spec_execute_statements(rest, envi) matches Err(ev) && ev == e@);
                        assert(spec_execute_program(program@, env0) matches Err(ev) && ev == e@);
                    }
                    return Err(e);
                },
            }
            i = i + 1;
            proof {
                assert(rest[0] == all[i - 1]);
                assert(rest.subrange(1, rest.len() as int) =~= all.subrange(
                    i as int,
                    all.len() as int,
                ));
            }
        }
        proof {
            assert(all.subrange(n as int, all.len() as int) =~= Seq::<StatementView>::empty());
        }
        Ok(())
    }

    /// Parses and executes a script: the source is parsed as a program,
    /// and on success the program is executed against the runtime's
    /// environment. The outcome is exactly what the specification-level
    /// parse and execution say of the source's character sequence.
    pub fn execute(&mut self, source: &str) -> (r: Result<(), RuntimeError>)
        requires
            old(self).environment.wf(),
        ensures
            final(self).environment.wf(),
            match spec_parse_program(source@) {
                ParseOutcome::Parsed(pv, _) => match spec_execute_program(
                    pv,
                    old(self).environment@,
                ) {
                    Ok(env2) => r is Ok && final(self).environment@ == env2,
                    Err(ev) => r matches Err(err) && ev == err@,
                },
                ParseOutcome::Failed(pe) => r matches Err(err) && err@
                    == RuntimeErrorView::ParserError(pe),
            },
    {
        let parser = Parser::new(source);
        let program = match parser.parse() {
            Ok(p) => p,
            Err(e) => {
                return Err(RuntimeError::ParserError(e));
            },
        };
        self.execute_program(program)
    }
}

} // verus!
