use vstd::prelude::*;

use crate::ast::{
    BinaryOp, BinaryOpView, BinaryOperator, Expression, ExpressionView, FloatLiteral,
    FloatLiteralView, FunctionDeclaration, FunctionDeclarationView, Identifier, IdentifierView,
    IntegerLiteral, IntegerLiteralView, NamedFieldDeclaration, NamedFieldDeclarationView,
    Parameter, ParameterView, Program, ProgramView, ReturnStatement, ReturnStatementView,
    Statement, StatementView, StructDeclaration, StructDeclarationView, TupleFieldDeclaration,
    TupleFieldDeclarationView, VariableDeclaration, VariableDeclarationView, parameter_view,
    named_field_view, tuple_field_view, expr_view, stmt_view, stmt_views, parameter_views,
    named_field_views, tuple_field_views,
};
use crate::lexer::{
    next_lexeme, token_debug_name, LexOutcome, LexerError, ScanStep, Token, TokenView,
    lemma_next_lexeme_bounds, scan_token, is_digit_char, digits_value, lemma_digits_value_nonneg,
    lemma_scan_digits_exact, lemma_skip_spaces_exact,
};
use crate::span::{Span, SpanView, Spanned};

verus! {

/// Why a parse could not be completed.
#[derive(Debug, PartialEq)]
pub enum ParserError {
    /// The tokenizer failed; the parse fails with the same reason.
    LexerError(LexerError),
    /// The current token does not satisfy the grammar: what was expected,
    /// what stood there instead (`None` at end of input), and where.
    UnexpectedToken { expected: String, found: Option<Token>, span: Span },
    /// The input ended in the middle of a construct.
    UnexpectedEof,
}

/// The mathematical image of a [`ParserError`].
pub enum ParserErrorView {
    LexerError(LexerError),
    UnexpectedToken { expected: Seq<char>, found: Option<TokenView>, span: SpanView },
    UnexpectedEof,
}

impl View for ParserError {
    type V = ParserErrorView;

    open spec fn view(&self) -> ParserErrorView {
        match self {
            ParserError::LexerError(e) => ParserErrorView::LexerError(*e),
            ParserError::UnexpectedToken { expected, found, span } => {
                ParserErrorView::UnexpectedToken {
                    expected: expected@,
                    found: match found {
                        Some(t) => Some(t@),
                        None => None,
                    },
                    span: span@,
                }
            },
            ParserError::UnexpectedEof => ParserErrorView::UnexpectedEof,
        }
    }
}

/// The outcome of one specification-level parsing step: a parsed value
/// together with the position the parse resumes from, or the error that
/// ends the parse.
pub enum ParseOutcome<T> {
    Parsed(T, int),
    Failed(ParserErrorView),
}

// ---------------------------------------------------------------------------
// The specification-level grammar, mirrored step by step
// ---------------------------------------------------------------------------
// Each function takes the source `s` and a position `m` from which the
// parser's current token is scanned, and says what the parser produces and
// from where it goes on. The parser pulls tokens lazily, so stepping past a
// token fails as soon as the token after it is lexically malformed.
/// Consuming one expected token.
pub open spec fn spec_consume(s: Seq<char>, m: int, expected: TokenView) -> ParseOutcome<SpanView> {
    match next_lexeme(s, m) {
        LexOutcome::Next(tv, st, en) => {
            if tv == expected {
                match next_lexeme(s, en) {
                    LexOutcome::Fail(e, _, _) => ParseOutcome::Failed(
                        ParserErrorView::LexerError(e),
                    ),
                    _ => ParseOutcome::Parsed(SpanView { start: st, end: en }, en),
                }
            } else {
                ParseOutcome::Failed(
                    ParserErrorView::UnexpectedToken {
                        expected: token_debug_name(expected),
                        found: Some(tv),
                        span: SpanView { start: st, end: en },
                    },
                )
            }
        },
        LexOutcome::End => ParseOutcome::Failed(
            ParserErrorView::UnexpectedToken {
                expected: token_debug_name(expected),
                found: None,
                span: SpanView { start: s.len() as int, end: s.len() as int },
            },
        ),
        LexOutcome::Fail(e, _, _) => ParseOutcome::Failed(ParserErrorView::LexerError(e)),
    }
}

/// Consuming an identifier token, yielding the identifier node.
pub open spec fn spec_consume_identifier(s: Seq<char>, m: int) -> ParseOutcome<IdentifierView> {
    match next_lexeme(s, m) {
        LexOutcome::Next(tv, st, en) => match tv {
            TokenView::Identifier(name) => {
                match next_lexeme(s, en) {
                    LexOutcome::Fail(e, _, _) => ParseOutcome::Failed(
                        ParserErrorView::LexerError(e),
                    ),
                    _ => ParseOutcome::Parsed(
                        IdentifierView { name: name, span: SpanView { start: st, end: en } },
                        en,
                    ),
                }
            },
            _ => ParseOutcome::Failed(
                ParserErrorView::UnexpectedToken {
                    expected: "identifier"@,
                    found: Some(tv),
                    span: SpanView { start: st, end: en },
                },
            ),
        },
        LexOutcome::End => ParseOutcome::Failed(
            ParserErrorView::UnexpectedToken {
                expected: "identifier"@,
                found: None,
                span: SpanView { start: s.len() as int, end: s.len() as int },
            },
        ),
        LexOutcome::Fail(e, _, _) => ParseOutcome::Failed(ParserErrorView::LexerError(e)),
    }
}

/// Parsing a primary expression: an integer literal, a float literal or an
/// identifier. Any other token is not an expression.
pub open spec fn spec_parse_primary(s: Seq<char>, m: int) -> ParseOutcome<ExpressionView> {
    match next_lexeme(s, m) {
        LexOutcome::Next(tv, st, en) => match tv {
            TokenView::IntegerLiteral(v) => match next_lexeme(s, en) {
                LexOutcome::Fail(e, _, _) => ParseOutcome::Failed(ParserErrorView::LexerError(e)),
                _ => ParseOutcome::Parsed(
                    ExpressionView::IntegerLiteral(
                        IntegerLiteralView { value: v, span: SpanView { start: st, end: en } },
                    ),
                    en,
                ),
            },
            TokenView::FloatLiteral(text) => match next_lexeme(s, en) {
                LexOutcome::Fail(e, _, _) => ParseOutcome::Failed(ParserErrorView::LexerError(e)),
                _ => ParseOutcome::Parsed(
                    ExpressionView::FloatLiteral(
                        FloatLiteralView { value: text, span: SpanView { start: st, end: en } },
                    ),
                    en,
                ),
            },
            TokenView::Identifier(name) => match next_lexeme(s, en) {
                LexOutcome::Fail(e, _, _) => ParseOutcome::Failed(ParserErrorView::LexerError(e)),
                _ => ParseOutcome::Parsed(
                    ExpressionView::Identifier(
                        IdentifierView { name: name, span: SpanView { start: st, end: en } },
                    ),
                    en,
                ),
            },
            _ => ParseOutcome::Failed(
                ParserErrorView::UnexpectedToken {
                    expected: "expression"@,
                    found: Some(tv),
                    span: SpanView { start: st, end: en },
                },
            ),
        },
        LexOutcome::End => ParseOutcome::Failed(
            ParserErrorView::UnexpectedToken {
                expected: "expression"@,
                found: None,
                span: SpanView { start: s.len() as int, end: s.len() as int },
            },
        ),
        LexOutcome::Fail(e, _, _) => ParseOutcome::Failed(ParserErrorView::LexerError(e)),
    }
}

/// Parsing an expression: a primary expression, possibly followed by `+` or
/// `*` and a full expression as the right operand (right-associative by
/// construction). No other operator continues an expression: the expression
/// ends before it, and the surrounding grammar decides what it means.
pub open spec fn spec_parse_expression(s: Seq<char>, m: int) -> ParseOutcome<ExpressionView>
    decreases s.len() - m,
{
    match spec_parse_primary(s, m) {
        ParseOutcome::Failed(e) => ParseOutcome::Failed(e),
        ParseOutcome::Parsed(first, m1) => match next_lexeme(s, m1) {
            LexOutcome::Next(op, _, oen) => {
                if op == TokenView::Plus || op == TokenView::Star {
                    let operator = if op == TokenView::Plus {
                        BinaryOperator::Add
                    } else {
                        BinaryOperator::Multiply
                    };
                    match next_lexeme(s, oen) {
                        LexOutcome::Fail(e, _, _) => ParseOutcome::Failed(
                            ParserErrorView::LexerError(e),
                        ),
                        _ => {
                            if m < oen <= s.len() {
                                match spec_parse_expression(s, oen) {
                                    ParseOutcome::Parsed(second, m2) => ParseOutcome::Parsed(
                                        ExpressionView::BinaryOp(
                                            BinaryOpView {
                                                operator,
                                                left: Box::new(first),
                                                right: Box::new(second),
                                                span: first.span().combine(second.span()),
                                                inferred_type: None,
                                            },
                                        ),
                                        m2,
                                    ),
                                    ParseOutcome::Failed(e) => ParseOutcome::Failed(e),
                                }
                            } else {
                                ParseOutcome::Failed(ParserErrorView::UnexpectedEof)
                            }
                        },
                    }
                } else {
                    ParseOutcome::Parsed(first, m1)
                }
            },
            _ => ParseOutcome::Parsed(first, m1),
        },
    }
}

/// Parsing `let IDENT = EXPR ;`: the node's span runs from the `let`
/// keyword to the closing semicolon.
pub open spec fn spec_parse_variable_declaration(s: Seq<char>, m: int) -> ParseOutcome<
    VariableDeclarationView,
> {
    match spec_consume(s, m, TokenView::Let) {
        ParseOutcome::Failed(e) => ParseOutcome::Failed(e),
        ParseOutcome::Parsed(let_sp, m1) => match spec_consume_identifier(s, m1) {
            ParseOutcome::Failed(e) => ParseOutcome::Failed(e),
            ParseOutcome::Parsed(id, m2) => match spec_consume(s, m2, TokenView::Assign) {
                ParseOutcome::Failed(e) => ParseOutcome::Failed(e),
                ParseOutcome::Parsed(_, m3) => match spec_parse_expression(s, m3) {
                    ParseOutcome::Failed(e) => ParseOutcome::Failed(e),
                    ParseOutcome::Parsed(init, m4) => match spec_consume(
                        s,
                        m4,
                        TokenView::Semicolon,
                    ) {
                        ParseOutcome::Failed(e) => ParseOutcome::Failed(e),
                        ParseOutcome::Parsed(semi_sp, m5) => ParseOutcome::Parsed(
                            VariableDeclarationView {
                                identifier: id,
                                initializer: init,
                                span: SpanView { start: let_sp.start, end: semi_sp.end },
                            },
                            m5,
                        ),
                    },
                },
            },
        },
    }
}

/// Parsing `return [EXPR] ;`. The node's span is the `return` keyword's,
/// merged with the returned expression's span where there is one; the
/// closing semicolon is consumed in both forms.
pub open spec fn spec_parse_return_statement(s: Seq<char>, m: int) -> ParseOutcome<
    ReturnStatementView,
> {
    match spec_consume(s, m, TokenView::Return) {
        ParseOutcome::Failed(e) => ParseOutcome::Failed(e),
        ParseOutcome::Parsed(ret_sp, m1) => match next_lexeme(s, m1) {
            LexOutcome::Next(TokenView::Semicolon, _, _) => match spec_consume(
                s,
                m1,
                TokenView::Semicolon,
            ) {
                ParseOutcome::Failed(e) => ParseOutcome::Failed(e),
                ParseOutcome::Parsed(_, m2) => ParseOutcome::Parsed(
                    ReturnStatementView { value: None, span: ret_sp },
                    m2,
                ),
            },
            _ => match spec_parse_expression(s, m1) {
                ParseOutcome::Failed(e) => ParseOutcome::Failed(e),
                ParseOutcome::Parsed(expr, m2) => match spec_consume(s, m2, TokenView::Semicolon) {
                    ParseOutcome::Failed(e) => ParseOutcome::Failed(e),
                    ParseOutcome::Parsed(_, m3) => ParseOutcome::Parsed(
                        ReturnStatementView {
                            value: Some(expr),
                            span: ret_sp.combine(expr.span()),
                        },
                        m3,
                    ),
                },
            },
        },
    }
}

/// Parsing a parameter list: `IDENT : TYPE` repeated, with no separator.
/// Parsing stops at the first token that is not an identifier.
pub open spec fn spec_parse_parameters(s: Seq<char>, m: int) -> ParseOutcome<Seq<ParameterView>>
    decreases s.len() - m,
{
    match next_lexeme(s, m) {
        LexOutcome::Next(TokenView::Identifier(_), _, _) => match spec_consume_identifier(s, m) {
            ParseOutcome::Failed(e) => ParseOutcome::Failed(e),
            ParseOutcome::Parsed(id, m1) => match spec_consume(s, m1, TokenView::Colon) {
                ParseOutcome::Failed(e) => ParseOutcome::Failed(e),
                ParseOutcome::Parsed(_, m2) => match spec_consume_identifier(s, m2) {
                    ParseOutcome::Failed(e) => ParseOutcome::Failed(e),
                    ParseOutcome::Parsed(ty, m3) => {
                        let param = ParameterView {
                            identifier: id,
                            declared_type: ty,
                            span: SpanView { start: id.span.start, end: ty.span.end },
                        };
                        if m < m3 <= s.len() {
                            match spec_parse_parameters(s, m3) {
                                ParseOutcome::Parsed(rest, m4) => ParseOutcome::Parsed(
                                    seq![param] + rest,
                                    m4,
                                ),
                                ParseOutcome::Failed(e) => ParseOutcome::Failed(e),
                            }
                        } else {
                            ParseOutcome::Failed(ParserErrorView::UnexpectedEof)
                        }
                    },
                },
            },
        },
        _ => ParseOutcome::Parsed(Seq::empty(), m),
    }
}

/// Parsing the fields of a tuple struct, after its `(`: a comma-or-
/// identifier-delimited list of bare type names. The scan advances first
/// each round, so `p` is the position after the previous token; the
/// returned position is the one from which the closing `)` is scanned.
/// Running out of input mid-list is `UnexpectedEof`.
pub open spec fn spec_parse_tuple_fields(s: Seq<char>, p: int) -> ParseOutcome<
    Seq<TupleFieldDeclarationView>,
>
    decreases s.len() - p,
{
    match next_lexeme(s, p) {
        LexOutcome::Fail(e, _, _) => ParseOutcome::Failed(ParserErrorView::LexerError(e)),
        LexOutcome::End => ParseOutcome::Failed(ParserErrorView::UnexpectedEof),
        LexOutcome::Next(tv, st, en) => match tv {
            TokenView::RParen => ParseOutcome::Parsed(Seq::empty(), p),
            TokenView::Comma => {
                if p < en <= s.len() {
                    spec_parse_tuple_fields(s, en)
                } else {
                    ParseOutcome::Failed(ParserErrorView::UnexpectedEof)
                }
            },
            TokenView::Identifier(name) => {
                let f = TupleFieldDeclarationView {
                    declared_type: IdentifierView {
                        name: name,
                        span: SpanView { start: st, end: en },
                    },
                    span: SpanView { start: st, end: en },
                };
                if p < en <= s.len() {
                    match spec_parse_tuple_fields(s, en) {
                        ParseOutcome::Parsed(rest, m) => ParseOutcome::Parsed(seq![f] + rest, m),
                        ParseOutcome::Failed(e) => ParseOutcome::Failed(e),
                    }
                } else {
                    ParseOutcome::Failed(ParserErrorView::UnexpectedEof)
                }
            },
            _ => ParseOutcome::Failed(
                ParserErrorView::UnexpectedToken {
                    expected: "`)` or identifier"@,
                    found: Some(tv),
                    span: SpanView { start: st, end: en },
                },
            ),
        },
    }
}

/// Parsing the fields of a named-field struct, after its `{`: `IDENT :
/// TYPE` repeated, with no separator, until the closing `}`. The returned
/// position is the one from which the `}` is scanned. Running out of input
/// mid-list is `UnexpectedEof`.
pub open spec fn spec_parse_named_fields(s: Seq<char>, m: int) -> ParseOutcome<
    Seq<NamedFieldDeclarationView>,
>
    decreases s.len() - m,
{
    match next_lexeme(s, m) {
        LexOutcome::Fail(e, _, _) => ParseOutcome::Failed(ParserErrorView::LexerError(e)),
        LexOutcome::End => ParseOutcome::Failed(ParserErrorView::UnexpectedEof),
        LexOutcome::Next(tv, st, en) => match tv {
            TokenView::RBrace => ParseOutcome::Parsed(Seq::empty(), m),
            TokenView::Identifier(_) => match spec_consume_identifier(s, m) {
                ParseOutcome::Failed(e) => ParseOutcome::Failed(e),
                ParseOutcome::Parsed(id, m1) => match spec_consume(s, m1, TokenView::Colon) {
                    ParseOutcome::Failed(e) => ParseOutcome::Failed(e),
                    ParseOutcome::Parsed(_, m2) => match spec_consume_identifier(s, m2) {
                        ParseOutcome::Failed(e) => ParseOutcome::Failed(e),
                        ParseOutcome::Parsed(ty, m3) => {
                            let f = NamedFieldDeclarationView {
                                identifier: id,
                                declared_type: ty,
                                span: SpanView { start: id.span.start, end: ty.span.end },
                            };
                            if m < m3 <= s.len() {
                                match spec_parse_named_fields(s, m3) {
                                    ParseOutcome::Parsed(rest, m4) => ParseOutcome::Parsed(
                                        seq![f] + rest,
                                        m4,
                                    ),
                                    ParseOutcome::Failed(e) => ParseOutcome::Failed(e),
                                }
                            } else {
                                ParseOutcome::Failed(ParserErrorView::UnexpectedEof)
                            }
                        },
                    },
                },
            },
            _ => ParseOutcome::Failed(
                ParserErrorView::UnexpectedToken {
                    expected: "`)` or identifier"@,
                    found: Some(tv),
                    span: SpanView { start: st, end: en },
                },
            ),
        },
    }
}

/// Parsing `struct IDENT ...` in one of three shapes, chosen by the token
/// after the name: `(` begins a tuple struct (ended by `)` `;`, the span
/// running to the semicolon), `{` begins a named-field struct (ended by
/// `}`, the span running to the brace), `;` ends a unit struct. Running
/// out of input at the shape decision is `UnexpectedEof`.
pub open spec fn spec_parse_struct_declaration(s: Seq<char>, m: int) -> ParseOutcome<
    StructDeclarationView,
> {
    match spec_consume(s, m, TokenView::Struct) {
        ParseOutcome::Failed(e) => ParseOutcome::Failed(e),
        ParseOutcome::Parsed(struct_sp, m1) => match spec_consume_identifier(s, m1) {
            ParseOutcome::Failed(e) => ParseOutcome::Failed(e),
            ParseOutcome::Parsed(id, m2) => match next_lexeme(s, m2) {
                LexOutcome::Next(tv, st, en) => match tv {
                    TokenView::LParen => {
                        if m2 < en <= s.len() {
                            match spec_parse_tuple_fields(s, en) {
                                ParseOutcome::Failed(e) => ParseOutcome::Failed(e),
                                ParseOutcome::Parsed(fields, m3) => match spec_consume(
                                    s,
                                    m3,
                                    TokenView::RParen,
                                ) {
                                    ParseOutcome::Failed(e) => ParseOutcome::Failed(e),
                                    ParseOutcome::Parsed(_, m4) => match spec_consume(
                                        s,
                                        m4,
                                        TokenView::Semicolon,
                                    ) {
                                        ParseOutcome::Failed(e) => ParseOutcome::Failed(e),
                                        ParseOutcome::Parsed(semi_sp, m5) => ParseOutcome::Parsed(
                                            StructDeclarationView::TupleStruct {
                                                identifier: id,
                                                fields,
                                                span: SpanView {
                                                    start: struct_sp.start,
                                                    end: semi_sp.end,
                                                },
                                            },
                                            m5,
                                        ),
                                    },
                                },
                            }
                        } else {
                            ParseOutcome::Failed(ParserErrorView::UnexpectedEof)
                        }
                    },
                    TokenView::LBrace => {
                        if m2 < en <= s.len() {
                            match spec_parse_named_fields(s, en) {
                                ParseOutcome::Failed(e) => ParseOutcome::Failed(e),
                                ParseOutcome::Parsed(fields, m3) => match spec_consume(
                                    s,
                                    m3,
                                    TokenView::RBrace,
                                ) {
                                    ParseOutcome::Failed(e) => ParseOutcome::Failed(e),
                                    ParseOutcome::Parsed(rb_sp, m4) => ParseOutcome::Parsed(
                                        StructDeclarationView::NamedStruct {
                                            identifier: id,
                                            fields,
                                            span: SpanView {
                                                start: struct_sp.start,
                                                end: rb_sp.end,
                                            },
                                        },
                                        m4,
                                    ),
                                },
                            }
                        } else {
                            ParseOutcome::Failed(ParserErrorView::UnexpectedEof)
                        }
                    },
                    TokenView::Semicolon => match spec_consume(s, m2, TokenView::Semicolon) {
                        ParseOutcome::Failed(e) => ParseOutcome::Failed(e),
                        ParseOutcome::Parsed(semi_sp, m3) => ParseOutcome::Parsed(
                            StructDeclarationView::UnitStruct {
                                identifier: id,
                                span: SpanView { start: struct_sp.start, end: semi_sp.end },
                            },
                            m3,
                        ),
                    },
                    _ => ParseOutcome::Failed(
                        ParserErrorView::UnexpectedToken {
                            expected: "`(` or `{` or `;`"@,
                            found: Some(tv),
                            span: SpanView { start: st, end: en },
                        },
                    ),
                },
                LexOutcome::End => ParseOutcome::Failed(ParserErrorView::UnexpectedEof),
                LexOutcome::Fail(e, _, _) => ParseOutcome::Failed(ParserErrorView::LexerError(e)),
            },
        },
    }
}

/// Parsing one statement, chosen by its leading token: `let`, `fn`,
/// `struct` or `return`. Any other leading token begins no supported
/// statement and is an `UnexpectedToken` error.
pub open spec fn spec_parse_statement(s: Seq<char>, m: int) -> ParseOutcome<StatementView>
    decreases s.len() - m, 1int,
{
    match next_lexeme(s, m) {
        LexOutcome::Next(tv, st, en) => match tv {
            TokenView::Let => match spec_parse_variable_declaration(s, m) {
                ParseOutcome::Parsed(d, m1) => ParseOutcome::Parsed(
                    StatementView::VariableDeclaration(d),
                    m1,
                ),
                ParseOutcome::Failed(e) => ParseOutcome::Failed(e),
            },
            TokenView::Fn => match spec_parse_function_declaration(s, m) {
                ParseOutcome::Parsed(d, m1) => ParseOutcome::Parsed(
                    StatementView::FunctionDeclaration(d),
                    m1,
                ),
                ParseOutcome::Failed(e) => ParseOutcome::Failed(e),
            },
            TokenView::Struct => match spec_parse_struct_declaration(s, m) {
                ParseOutcome::Parsed(d, m1) => ParseOutcome::Parsed(
                    StatementView::StructDeclaration(d),
                    m1,
                ),
                ParseOutcome::Failed(e) => ParseOutcome::Failed(e),
            },
            TokenView::Return => match spec_parse_return_statement(s, m) {
                ParseOutcome::Parsed(d, m1) => ParseOutcome::Parsed(
                    StatementView::ReturnStatement(d),
                    m1,
                ),
                ParseOutcome::Failed(e) => ParseOutcome::Failed(e),
            },
            _ => ParseOutcome::Failed(
                ParserErrorView::UnexpectedToken {
                    expected: "statement"@,
                    found: Some(tv),
                    span: SpanView { start: st, end: en },
                },
            ),
        },
        LexOutcome::End => ParseOutcome::Failed(
            ParserErrorView::UnexpectedToken {
                expected: "statement"@,
                found: None,
                span: SpanView { start: s.len() as int, end: s.len() as int },
            },
        ),
        LexOutcome::Fail(e, _, _) => ParseOutcome::Failed(ParserErrorView::LexerError(e)),
    }
}

/// Parsing `fn IDENT ( PARAMS ) -> TYPE { STMTS }`: the span runs from the
/// `fn` keyword to the closing brace.
pub open spec fn spec_parse_function_declaration(s: Seq<char>, m: int) -> ParseOutcome<
    FunctionDeclarationView,
>
    decreases s.len() - m, 0int,
{
    match spec_consume(s, m, TokenView::Fn) {
        ParseOutcome::Failed(e) => ParseOutcome::Failed(e),
        ParseOutcome::Parsed(fn_sp, m1) => match spec_consume_identifier(s, m1) {
            ParseOutcome::Failed(e) => ParseOutcome::Failed(e),
            ParseOutcome::Parsed(id, m2) => match spec_consume(s, m2, TokenView::LParen) {
                ParseOutcome::Failed(e) => ParseOutcome::Failed(e),
                ParseOutcome::Parsed(_, m3) => match spec_parse_parameters(s, m3) {
                    ParseOutcome::Failed(e) => ParseOutcome::Failed(e),
                    ParseOutcome::Parsed(params, m4) => match spec_consume(
                        s,
                        m4,
                        TokenView::RParen,
                    ) {
                        ParseOutcome::Failed(e) => ParseOutcome::Failed(e),
                        ParseOutcome::Parsed(_, m5) => match spec_consume(
                            s,
                            m5,
                            TokenView::RightArrow,
                        ) {
                            ParseOutcome::Failed(e) => ParseOutcome::Failed(e),
                            ParseOutcome::Parsed(_, m6) => match spec_consume_identifier(s, m6) {
                                ParseOutcome::Failed(e) => ParseOutcome::Failed(e),
                                ParseOutcome::Parsed(ret_ty, m7) => match spec_consume(
                                    s,
                                    m7,
                                    TokenView::LBrace,
                                ) {
                                    ParseOutcome::Failed(e) => ParseOutcome::Failed(e),
                                    ParseOutcome::Parsed(_, m8) => {
                                        if m < m8 <= s.len() {
                                            match spec_parse_statements_in_body(s, m8) {
                                                ParseOutcome::Failed(e) => ParseOutcome::Failed(e),
                                                ParseOutcome::Parsed(body, m9) => match spec_consume(
                                                    s,
                                                    m9,
                                                    TokenView::RBrace,
                                                ) {
                                                    ParseOutcome::Failed(e) => ParseOutcome::Failed(
                                                        e,
                                                    ),
                                                    ParseOutcome::Parsed(
                                                        rb_sp,
                                                        m10,
                                                    ) => ParseOutcome::Parsed(
                                                        FunctionDeclarationView {
                                                            identifier: id,
                                                            parameters: params,
                                                            return_type: ret_ty,
                                                            body,
                                                            span: SpanView {
                                                                start: fn_sp.start,
                                                                end: rb_sp.end,
                                                            },
                                                        },
                                                        m10,
                                                    ),
                                                },
                                            }
                                        } else {
                                            ParseOutcome::Failed(ParserErrorView::UnexpectedEof)
                                        }
                                    },
                                },
                            },
                        },
                    },
                },
            },
        },
    }
}

/// Parsing the statements of a function body, up to but not including the
/// closing `}`.
pub open spec fn spec_parse_statements_in_body(s: Seq<char>, m: int) -> ParseOutcome<
    Seq<StatementView>,
>
    decreases s.len() - m, 2int,
{
    match next_lexeme(s, m) {
        LexOutcome::Next(TokenView::RBrace, _, _) => ParseOutcome::Parsed(Seq::empty(), m),
        _ => match spec_parse_statement(s, m) {
            ParseOutcome::Failed(e) => ParseOutcome::Failed(e),
            ParseOutcome::Parsed(st, m1) => {
                if m < m1 <= s.len() {
                    match spec_parse_statements_in_body(s, m1) {
                        ParseOutcome::Parsed(rest, m2) => ParseOutcome::Parsed(seq![st] + rest, m2),
                        ParseOutcome::Failed(e) => ParseOutcome::Failed(e),
                    }
                } else {
                    ParseOutcome::Failed(ParserErrorView::UnexpectedEof)
                }
            },
        },
    }
}

/// Parsing the top-level statements of a program, until the input ends.
pub open spec fn spec_parse_statements_top(s: Seq<char>, m: int) -> ParseOutcome<
    Seq<StatementView>,
>
    decreases s.len() - m,
{
    match next_lexeme(s, m) {
        LexOutcome::End => ParseOutcome::Parsed(Seq::empty(), m),
        LexOutcome::Fail(e, _, _) => ParseOutcome::Failed(ParserErrorView::LexerError(e)),
        LexOutcome::Next(..) => match spec_parse_statement(s, m) {
            ParseOutcome::Failed(e) => ParseOutcome::Failed(e),
            ParseOutcome::Parsed(st, m1) => {
                if m < m1 <= s.len() {
                    match spec_parse_statements_top(s, m1) {
                        ParseOutcome::Parsed(rest, m2) => ParseOutcome::Parsed(seq![st] + rest, m2),
                        ParseOutcome::Failed(e) => ParseOutcome::Failed(e),
                    }
                } else {
                    ParseOutcome::Failed(ParserErrorView::UnexpectedEof)
                }
            },
        },
    }
}

/// Parsing a whole program: its top-level statements until the end of the
/// input. The program's span covers the whole source, from offset zero to
/// its length.
pub open spec fn spec_parse_program(s: Seq<char>) -> ParseOutcome<ProgramView> {
    match spec_parse_statements_top(s, 0) {
        ParseOutcome::Failed(e) => ParseOutcome::Failed(e),
        ParseOutcome::Parsed(stmts, m) => ParseOutcome::Parsed(
            ProgramView { statements: stmts, span: SpanView { start: 0, end: s.len() as int } },
            m,
        ),
    }
}

/// For every non-empty digit string whose value fits the 64-bit signed
/// range, tokenizing it and parsing it as a single expression yields an
/// integer literal whose value is the digits read in base ten, and whose
/// span covers exactly the whole literal.
pub proof fn lemma_integer_literal_expression(digits: Seq<char>)
    requires
        digits.len() > 0,
        forall|i: int| 0 <= i < digits.len() ==> is_digit_char(#[trigger] digits[i]),
        digits_value(digits) <= i64::MAX as int,
    ensures
        spec_parse_expression(digits, 0) matches ParseOutcome::Parsed(e, m) && {
            &&& m == digits.len()
            &&& e matches ExpressionView::IntegerLiteral(lit) && {
                &&& lit.value as int == digits_value(digits)
                &&& lit.span == (SpanView { start: 0, end: digits.len() as int })
            }
        },
{
    let s = digits;
    let n = s.len() as int;
    lemma_skip_spaces_exact(s, 0, 0);
    lemma_scan_digits_exact(s, 0, n);
    assert(s.subrange(0, n) =~= s);
    lemma_digits_value_nonneg(s);
    assert(next_lexeme(s, 0) == LexOutcome::Next(
        TokenView::IntegerLiteral(digits_value(s) as i64),
        0,
        n,
    ));
    assert(next_lexeme(s, n) == LexOutcome::End);
    assert(spec_parse_primary(s, 0) == ParseOutcome::Parsed(
        ExpressionView::IntegerLiteral(
            IntegerLiteralView {
                value: digits_value(s) as i64,
                span: SpanView { start: 0, end: n },
            },
        ),
        n,
    ));
}

// ---------------------------------------------------------------------------
// The parser
// ---------------------------------------------------------------------------
/// A recursive-descent parser over a borrowed source text, with exactly one
/// token of lookahead.
pub struct Parser<'a> {
    src: &'a str,
    nchars: usize,
    /// The scan position: the end of the current token's lexeme.
    pos: usize,
    /// The one token of lookahead, with its span.
    current: Option<(Token, Span)>,
    /// The position from which `current` was scanned.
    mark: Ghost<int>,
}

impl<'a> Parser<'a> {
    /// The character sequence of the source being parsed.
    pub closed spec fn source(self) -> Seq<char> {
        self.src@
    }

    /// The position from which the current token is scanned: the position
    /// the specification-level grammar reads from.
    pub closed spec fn mark(self) -> int {
        self.mark@
    }

    /// The parser state agrees with the lexing relation: the lookahead is
    /// exactly the lexeme scanned from `mark`, and the scan position stands
    /// at its end.
    pub closed spec fn wf(self) -> bool {
        &&& self.nchars == self.src@.len()
        &&& 0 <= self.mark@ <= self.pos <= self.nchars
        &&& match next_lexeme(self.src@, self.mark@) {
            LexOutcome::Next(tv, st, en) => match self.current {
                Some((t, sp)) => t@ == tv && sp@ == (SpanView { start: st, end: en }) && self.pos
                    as int == en,
                None => false,
            },
            LexOutcome::End => self.current is None && self.mark@ == self.pos as int,
            LexOutcome::Fail(..) => false,
        }
    }

    /// Creates a parser over the given source text. No token is scanned
    /// until the parse begins.
    pub fn new(input: &'a str) -> (p: Parser<'a>)
        ensures
            p.source() == input@,
    {
        let nchars = input.unicode_len();
        Parser { src: input, nchars, pos: 0, current: None, mark: Ghost(0) }
    }

    /// Advances to the next token: scans one lexeme from the current scan
    /// position and makes it the lookahead. At the end of the input the
    /// lookahead becomes (and stays) empty. A lexical error is returned and
    /// ends the parse.
    fn advance(&mut self) -> (r: Result<(), LexerError>)
        requires
            old(self).nchars == old(self).source().len(),
            old(self).pos <= old(self).nchars,
        ensures
            final(self).source() == old(self).source(),
            final(self).nchars == old(self).nchars,
            match r {
                Ok(()) => final(self).wf() && final(self).mark@ == old(self).pos as int,
                Err(e) => next_lexeme(old(self).source(), old(self).pos as int) matches
                    LexOutcome::Fail(e2, _, _) && e2 == e,
            },
    {
        let ghost p = self.pos as int;
        proof {
            lemma_next_lexeme_bounds(self.src@, p);
        }
        match scan_token(self.src, self.nchars, self.pos) {
            ScanStep::Token(t, sp) => {
                let end = sp.end;
                self.current = Some((t, sp));
                self.mark = Ghost(p);
                self.pos = end;
                Ok(())
            },
            ScanStep::End => {
                self.current = None;
                self.mark = Ghost(p);
                Ok(())
            },
            ScanStep::Error(e, _sp) => Err(e),
        }
    }

    /// Consumes the current token, which must be the expected one, and
    /// returns its span. Any other token, or the end of the input, is an
    /// `UnexpectedToken` error; a malformed lexeme after the consumed token
    /// surfaces as a lexical error at once.
    fn consume(&mut self, expected: Token) -> (r: Result<Span, ParserError>)
        requires
            old(self).wf(),
        ensures
            final(self).source() == old(self).source(),
            final(self).nchars == old(self).nchars,
            match r {
                Ok(sp) => {
                    &&& final(self).wf()
                    &&& old(self).mark() < final(self).mark()
                    &&& spec_consume(old(self).source(), old(self).mark(), expected@)
                        == ParseOutcome::Parsed(sp@, final(self).mark())
                },
                Err(e) => spec_consume(old(self).source(), old(self).mark(), expected@)
                    == ParseOutcome::<SpanView>::Failed(e@),
            },
    {
        proof {
            lemma_next_lexeme_bounds(self.src@, self.mark@);
        }
        match self.current.take() {
            Some((t, sp)) => {
                if t.same_token(&expected) {
                    match self.advance() {
                        Ok(()) => Ok(sp),
                        Err(e) => Err(ParserError::LexerError(e)),
                    }
                } else {
                    Err(
                        ParserError::UnexpectedToken {
                            expected: expected.debug_name(),
                            found: Some(t),
                            span: sp,
                        },
                    )
                }
            },
            None => Err(
                ParserError::UnexpectedToken {
                    expected: expected.debug_name(),
                    found: None,
                    span: Span { start: self.nchars, end: self.nchars },
                },
            ),
        }
    }

    /// Consumes the current token, which must be an identifier, and returns
    /// the identifier node carrying its name and span.
    fn consume_identifier(&mut self) -> (r: Result<Identifier, ParserError>)
        requires
            old(self).wf(),
        ensures
            final(self).source() == old(self).source(),
            final(self).nchars == old(self).nchars,
            match r {
                Ok(id) => {
                    &&& final(self).wf()
                    &&& old(self).mark() < final(self).mark()
                    &&& spec_consume_identifier(old(self).source(), old(self).mark())
                        == ParseOutcome::Parsed(id@, final(self).mark())
                },
                Err(e) => spec_consume_identifier(old(self).source(), old(self).mark())
                    == ParseOutcome::<IdentifierView>::Failed(e@),
            },
    {
        proof {
            lemma_next_lexeme_bounds(self.src@, self.mark@);
        }
        match self.current.take() {
            Some((t, sp)) => match t {
                Token::Identifier(name) => {
                    match self.advance() {
                        Ok(()) => Ok(Identifier { name, span: sp }),
                        Err(e) => Err(ParserError::LexerError(e)),
                    }
                },
                _ => Err(
                    ParserError::UnexpectedToken {
                        expected: String::from_str("identifier"),
                        found: Some(t),
                        span: sp,
                    },
                ),
            },
            None => Err(
                ParserError::UnexpectedToken {
                    expected: String::from_str("identifier"),
                    found: None,
                    span: Span { start: self.nchars, end: self.nchars },
                },
            ),
        }
    }

    /// Parses one expression: a primary expression (integer literal, float
    /// literal or identifier), and after `+` or `*` a full expression as
    /// the right operand, right-associative by construction. Any other
    /// token after the primary ends the expression.
    #[verifier::rlimit(100)]
    fn parse_expression(&mut self) -> (r: Result<Expression, ParserError>)
        requires
            old(self).wf(),
        ensures
            final(self).source() == old(self).source(),
            final(self).nchars == old(self).nchars,
            match r {
                Ok(node) => {
                    &&& final(self).wf()
                    &&& old(self).mark() < final(self).mark()
                    &&& spec_parse_expression(old(self).source(), old(self).mark())
                        == ParseOutcome::Parsed(node@, final(self).mark())
                },
                Err(e) => spec_parse_expression(old(self).source(), old(self).mark())
                    == ParseOutcome::<ExpressionView>::Failed(e@),
            },
        decreases self.nchars - self.mark(),
    {
        let ghost s = self.source();
        let ghost m0 = self.mark();
        proof {
            lemma_next_lexeme_bounds(s, m0);
        }
        let first: Expression = match self.current.take() {
            Some((Token::IntegerLiteral(value), span)) => {
                match self.advance() {
                    Ok(()) => Expression::IntegerLiteral(IntegerLiteral { value, span }),
                    Err(e) => {
                        return Err(ParserError::LexerError(e));
                    },
                }
            },
            Some((Token::FloatLiteral(text), span)) => {
                match self.advance() {
                    Ok(()) => Expression::FloatLiteral(FloatLiteral { value: text, span }),
                    Err(e) => {
                        return Err(ParserError::LexerError(e));
                    },
                }
            },
            Some((Token::Identifier(name), span)) => {
                match self.advance() {
                    Ok(()) => Expression::Identifier(Identifier { name, span }),
                    Err(e) => {
                        return Err(ParserError::LexerError(e));
                    },
                }
            },
            Some((t, span)) => {
                return Err(
                    ParserError::UnexpectedToken {
                        expected: String::from_str("expression"),
                        found: Some(t),
                        span,
                    },
                );
            },
            None => {
                return Err(
                    ParserError::UnexpectedToken {
                        expected: String::from_str("expression"),
                        found: None,
                        span: Span { start: self.nchars, end: self.nchars },
                    },
                );
            },
        };
        let ghost m1 = self.mark();
        proof {
            assert(spec_parse_primary(s, m0) == ParseOutcome::Parsed(expr_view(first), m1));
        }
        let is_plus = matches!(&self.current, Some((Token::Plus, _)));
        let is_star = matches!(&self.current, Some((Token::Star, _)));
        if is_plus || is_star {
            let op_token = if is_plus {
                Token::Plus
            } else {
                Token::Star
            };
            let operator = if is_plus {
                BinaryOperator::Add
            } else {
                BinaryOperator::Multiply
            };
            match self.consume(op_token) {
                Ok(_) => {},
                Err(e) => {
                    return Err(e);
                },
            }
            let second = match self.parse_expression() {
                Ok(v) => v,
                Err(e) => {
                    return Err(e);
                },
            };
            let span = first.span().combine(second.span());
            return Ok(
                Expression::BinaryOp(
                    BinaryOp {
                        operator,
                        left: Box::new(first),
                        right: Box::new(second),
                        span,
                        inferred_type: None,
                    },
                ),
            );
        }
        Ok(first)
    }

    /// Parses `let IDENT = EXPR ;`.
    fn parse_variable_declaration(&mut self) -> (r: Result<VariableDeclaration, ParserError>)
        requires
            old(self).wf(),
        ensures
            final(self).source() == old(self).source(),
            final(self).nchars == old(self).nchars,
            match r {
                Ok(node) => {
                    &&& final(self).wf()
                    &&& old(self).mark() < final(self).mark()
                    &&& spec_parse_variable_declaration(old(self).source(), old(self).mark())
                        == ParseOutcome::Parsed(node@, final(self).mark())
                },
                Err(e) => spec_parse_variable_declaration(old(self).source(), old(self).mark())
                    == ParseOutcome::<VariableDeclarationView>::Failed(e@),
            },
    {
        let start_span = match self.consume(Token::Let) {
            Ok(v) => v,
            Err(e) => {
                return Err(e);
            },
        };
        let identifier = match self.consume_identifier() {
            Ok(v) => v,
            Err(e) => {
                return Err(e);
            },
        };
        match self.consume(Token::Assign) {
            Ok(_) => {},
            Err(e) => {
                return Err(e);
            },
        }
        let initializer = match self.parse_expression() {
            Ok(v) => v,
            Err(e) => {
                return Err(e);
            },
        };
        let end_span = match self.consume(Token::Semicolon) {
            Ok(v) => v,
            Err(e) => {
                return Err(e);
            },
        };
        Ok(
            VariableDeclaration {
                identifier,
                initializer,
                span: Span { start: start_span.start, end: end_span.end },
            },
        )
    }

    /// Parses `return [EXPR] ;`.
    fn parse_return_statement(&mut self) -> (r: Result<ReturnStatement, ParserError>)
        requires
            old(self).wf(),
        ensures
            final(self).source() == old(self).source(),
            final(self).nchars == old(self).nchars,
            match r {
                Ok(node) => {
                    &&& final(self).wf()
                    &&& old(self).mark() < final(self).mark()
                    &&& spec_parse_return_statement(old(self).source(), old(self).mark())
                        == ParseOutcome::Parsed(node@, final(self).mark())
                },
                Err(e) => spec_parse_return_statement(old(self).source(), old(self).mark())
                    == ParseOutcome::<ReturnStatementView>::Failed(e@),
            },
    {
        let span = match self.consume(Token::Return) {
            Ok(v) => v,
            Err(e) => {
                return Err(e);
            },
        };
        if matches!(&self.current, Some((Token::Semicolon, _))) {
            match self.consume(Token::Semicolon) {
                Ok(_) => {},
                Err(e) => {
                    return Err(e);
                },
            }
            Ok(ReturnStatement { value: None, span })
        } else {
            let expression = match self.parse_expression() {
                Ok(v) => v,
                Err(e) => {
                    return Err(e);
                },
            };
            let span = span.combine(expression.span());
            match self.consume(Token::Semicolon) {
                Ok(_) => {},
                Err(e) => {
                    return Err(e);
                },
            }
            Ok(ReturnStatement { value: Some(expression), span })
        }
    }

    /// Parses a parameter list, `IDENT : TYPE` repeated with no separator,
    /// stopping at the first token that is not an identifier.
    fn parse_parameters(&mut self) -> (r: Result<Vec<Parameter>, ParserError>)
        requires
            old(self).wf(),
        ensures
            final(self).source() == old(self).source(),
            final(self).nchars == old(self).nchars,
            match r {
                Ok(v) => {
                    &&& final(self).wf()
                    &&& old(self).mark() <= final(self).mark()
                    &&& spec_parse_parameters(old(self).source(), old(self).mark())
                        == ParseOutcome::Parsed(parameter_views(v@), final(self).mark())
                },
                Err(e) => spec_parse_parameters(old(self).source(), old(self).mark())
                    == ParseOutcome::<Seq<ParameterView>>::Failed(e@),
            },
        decreases self.nchars - self.mark(),
    {
        if !matches!(&self.current, Some((Token::Identifier(_), _))) {
            let r: Vec<Parameter> = Vec::new();
            proof {
                assert(parameter_views(r@) =~= Seq::<ParameterView>::empty());
            }
            return Ok(r);
        }
        let identifier = match self.consume_identifier() {
            Ok(v) => v,
            Err(e) => {
                return Err(e);
            },
        };
        match self.consume(Token::Colon) {
            Ok(_) => {},
            Err(e) => {
                return Err(e);
            },
        }
        let declared_type = match self.consume_identifier() {
            Ok(v) => v,
            Err(e) => {
                return Err(e);
            },
        };
        let span = Span { start: identifier.span.start, end: declared_type.span.end };
        let param = Parameter { identifier, declared_type, span };
        let mut rest = match self.parse_parameters() {
            Ok(v) => v,
            Err(e) => {
                return Err(e);
            },
        };
        let ghost rest0 = rest@;
        rest.insert(0, param);
        proof {
            assert(parameter_views(rest@) =~= seq![parameter_view(param)] + parameter_views(
                rest0,
            ));
        }
        Ok(rest)
    }

    /// Parses the fields of a tuple struct, after its `(`. The scan
    /// advances first each round: a `)` ends the list (and stays the
    /// lookahead), a `,` moves to the next field, an identifier is a bare
    /// type name. Running out of input mid-list is `UnexpectedEof`.
    fn parse_tuple_fields(&mut self) -> (r: Result<Vec<TupleFieldDeclaration>, ParserError>)
        requires
            old(self).nchars == old(self).source().len(),
            old(self).pos <= old(self).nchars,
        ensures
            final(self).source() == old(self).source(),
            final(self).nchars == old(self).nchars,
            match r {
                Ok(v) => {
                    &&& final(self).wf()
                    &&& old(self).pos as int <= final(self).mark()
                    &&& spec_parse_tuple_fields(old(self).source(), old(self).pos as int)
                        == ParseOutcome::Parsed(tuple_field_views(v@), final(self).mark())
                },
                Err(e) => spec_parse_tuple_fields(old(self).source(), old(self).pos as int)
                    == ParseOutcome::<Seq<TupleFieldDeclarationView>>::Failed(e@),
            },
        decreases self.nchars - self.pos,
    {
        let ghost s = self.source();
        let ghost p0 = self.pos as int;
        proof {
            lemma_next_lexeme_bounds(s, p0);
        }
        match self.advance() {
            Ok(()) => {},
            Err(e) => {
                return Err(ParserError::LexerError(e));
            },
        }
        if matches!(&self.current, Some((Token::RParen, _))) {
            let r: Vec<TupleFieldDeclaration> = Vec::new();
            proof {
                assert(tuple_field_views(r@) =~= Seq::<TupleFieldDeclarationView>::empty());
            }
            return Ok(r);
        }
        if matches!(&self.current, Some((Token::Comma, _))) {
            return self.parse_tuple_fields();
        }
        match self.current.take() {
            Some((Token::Identifier(name), span)) => {
                let declared_type = Identifier { name, span };
                let field = TupleFieldDeclaration { declared_type, span };
                let mut rest = match self.parse_tuple_fields() {
                    Ok(v) => v,
                    Err(e) => {
                        return Err(e);
                    },
                };
                let ghost rest0 = rest@;
                rest.insert(0, field);
                proof {
                    assert(tuple_field_views(rest@) =~= seq![tuple_field_view(field)]
                        + tuple_field_views(rest0));
                }
                Ok(rest)
            },
            Some((t, span)) => Err(
                ParserError::UnexpectedToken {
                    expected: String::from_str("`)` or identifier"),
                    found: Some(t),
                    span,
                },
            ),
            None => Err(ParserError::UnexpectedEof),
        }
    }

    /// Parses the fields of a named-field struct, after its `{`: `IDENT :
    /// TYPE` repeated with no separator, until the closing `}` (which stays
    /// the lookahead). Running out of input mid-list is `UnexpectedEof`.
    fn parse_named_fields(&mut self) -> (r: Result<Vec<NamedFieldDeclaration>, ParserError>)
        requires
            old(self).wf(),
        ensures
            final(self).source() == old(self).source(),
            final(self).nchars == old(self).nchars,
            match r {
                Ok(v) => {
                    &&& final(self).wf()
                    &&& old(self).mark() <= final(self).mark()
                    &&& spec_parse_named_fields(old(self).source(), old(self).mark())
                        == ParseOutcome::Parsed(named_field_views(v@), final(self).mark())
                },
                Err(e) => spec_parse_named_fields(old(self).source(), old(self).mark())
                    == ParseOutcome::<Seq<NamedFieldDeclarationView>>::Failed(e@),
            },
        decreases self.nchars - self.mark(),
    {
        if matches!(&self.current, Some((Token::RBrace, _))) {
            let r: Vec<NamedFieldDeclaration> = Vec::new();
            proof {
                assert(named_field_views(r@) =~= Seq::<NamedFieldDeclarationView>::empty());
            }
            return Ok(r);
        }
        if matches!(&self.current, Some((Token::Identifier(_), _))) {
            let identifier = match self.consume_identifier() {
                Ok(v) => v,
                Err(e) => {
                    return Err(e);
                },
            };
            match self.consume(Token::Colon) {
                Ok(_) => {},
                Err(e) => {
                    return Err(e);
                },
            }
            let declared_type = match self.consume_identifier() {
                Ok(v) => v,
                Err(e) => {
                    return Err(e);
                },
            };
            let span = Span { start: identifier.span.start, end: declared_type.span.end };
            let field = NamedFieldDeclaration { identifier, declared_type, span };
            let mut rest = match self.parse_named_fields() {
                Ok(v) => v,
                Err(e) => {
                    return Err(e);
                },
            };
            let ghost rest0 = rest@;
            rest.insert(0, field);
            proof {
                assert(named_field_views(rest@) =~= seq![named_field_view(field)]
                    + named_field_views(rest0));
            }
            return Ok(rest);
        }
        match self.current.take() {
            Some((t, span)) => Err(
                ParserError::UnexpectedToken {
                    expected: String::from_str("`)` or identifier"),
                    found: Some(t),
                    span,
                },
            ),
            None => Err(ParserError::UnexpectedEof),
        }
    }

    /// Parses `struct IDENT ...`, choosing among the three shapes by the
    /// token after the name: `(` a tuple struct, `{` a named-field struct,
    /// `;` a unit struct.
    #[verifier::rlimit(100)]
    fn parse_struct_declaration(&mut self) -> (r: Result<StructDeclaration, ParserError>)
        requires
            old(self).wf(),
        ensures
            final(self).source() == old(self).source(),
            final(self).nchars == old(self).nchars,
            match r {
                Ok(node) => {
                    &&& final(self).wf()
                    &&& old(self).mark() < final(self).mark()
                    &&& spec_parse_struct_declaration(old(self).source(), old(self).mark())
                        == ParseOutcome::Parsed(node@, final(self).mark())
                },
                Err(e) => spec_parse_struct_declaration(old(self).source(), old(self).mark())
                    == ParseOutcome::<StructDeclarationView>::Failed(e@),
            },
    {
        let start_span = match self.consume(Token::Struct) {
            Ok(v) => v,
            Err(e) => {
                return Err(e);
            },
        };
        let identifier = match self.consume_identifier() {
            Ok(v) => v,
            Err(e) => {
                return Err(e);
            },
        };
        proof {
            lemma_next_lexeme_bounds(self.source(), self.mark());
        }
        if matches!(&self.current, Some((Token::LParen, _))) {
            let fields = match self.parse_tuple_fields() {
                Ok(v) => v,
                Err(e) => {
                    return Err(e);
                },
            };
            match self.consume(Token::RParen) {
                Ok(_) => {},
                Err(e) => {
                    return Err(e);
                },
            }
            let end_span = match self.consume(Token::Semicolon) {
                Ok(v) => v,
                Err(e) => {
                    return Err(e);
                },
            };
            return Ok(
                StructDeclaration::TupleStruct {
                    identifier,
                    fields,
                    span: Span { start: start_span.start, end: end_span.end },
                },
            );
        }
        if matches!(&self.current, Some((Token::LBrace, _))) {
            match self.advance() {
                Ok(()) => {},
                Err(e) => {
                    return Err(ParserError::LexerError(e));
                },
            }
            let fields = match self.parse_named_fields() {
                Ok(v) => v,
                Err(e) => {
                    return Err(e);
                },
            };
            let end_span = match self.consume(Token::RBrace) {
                Ok(v) => v,
                Err(e) => {
                    return Err(e);
                },
            };
            return Ok(
                StructDeclaration::NamedStruct {
                    identifier,
                    fields,
                    span: Span { start: start_span.start, end: end_span.end },
                },
            );
        }
        if matches!(&self.current, Some((Token::Semicolon, _))) {
            let end_span = match self.consume(Token::Semicolon) {
                Ok(v) => v,
                Err(e) => {
                    return Err(e);
                },
            };
            return Ok(
                StructDeclaration::UnitStruct {
                    identifier,
                    span: Span { start: start_span.start, end: end_span.end },
                },
            );
        }
        match self.current.take() {
            Some((t, span)) => Err(
                ParserError::UnexpectedToken {
                    expected: String::from_str("`(` or `{` or `;`"),
                    found: Some(t),
                    span,
                },
            ),
            None => Err(ParserError::UnexpectedEof),
        }
    }

    /// Parses one statement, chosen by its leading token: `let`, `fn`,
    /// `struct` or `return`. Any other leading token begins no supported
    /// statement and is an `UnexpectedToken` error.
    #[verifier::rlimit(100)]
    fn parse_statement(&mut self) -> (r: Result<Statement, ParserError>)
        requires
            old(self).wf(),
        ensures
            final(self).source() == old(self).source(),
            final(self).nchars == old(self).nchars,
            match r {
                Ok(node) => {
                    &&& final(self).wf()
                    &&& old(self).mark() < final(self).mark()
                    &&& spec_parse_statement(old(self).source(), old(self).mark())
                        == ParseOutcome::Parsed(node@, final(self).mark())
                },
                Err(e) => spec_parse_statement(old(self).source(), old(self).mark())
                    == ParseOutcome::<StatementView>::Failed(e@),
            },
        decreases self.nchars - self.mark(), 1int,
    {
        if matches!(&self.current, Some((Token::Let, _))) {
            return match self.parse_variable_declaration() {
                Ok(d) => Ok(Statement::VariableDeclaration(d)),
                Err(e) => Err(e),
            };
        }
        if matches!(&self.current, Some((Token::Fn, _))) {
            return match self.parse_function_declaration() {
                Ok(d) => Ok(Statement::FunctionDeclaration(d)),
                Err(e) => Err(e),
            };
        }
        if matches!(&self.current, Some((Token::Struct, _))) {
            return match self.parse_struct_declaration() {
                Ok(d) => Ok(Statement::StructDeclaration(d)),
                Err(e) => Err(e),
            };
        }
        if matches!(&self.current, Some((Token::Return, _))) {
            return match self.parse_return_statement() {
                Ok(d) => Ok(Statement::ReturnStatement(d)),
                Err(e) => Err(e),
            };
        }
        match self.current.take() {
            Some((t, span)) => Err(
                ParserError::UnexpectedToken {
                    expected: String::from_str("statement"),
                    found: Some(t),
                    span,
                },
            ),
            None => Err(
                ParserError::UnexpectedToken {
                    expected: String::from_str("statement"),
                    found: None,
                    span: Span { start: self.nchars, end: self.nchars },
                },
            ),
        }
    }

    /// Parses `fn IDENT ( PARAMS ) -> TYPE { STMTS }`.
    #[verifier::rlimit(100)]
    fn parse_function_declaration(&mut self) -> (r: Result<FunctionDeclaration, ParserError>)
        requires
            old(self).wf(),
        ensures
            final(self).source() == old(self).source(),
            final(self).nchars == old(self).nchars,
            match r {
                Ok(node) => {
                    &&& final(self).wf()
                    &&& old(self).mark() < final(self).mark()
                    &&& spec_parse_function_declaration(old(self).source(), old(self).mark())
                        == ParseOutcome::Parsed(node@, final(self).mark())
                },
                Err(e) => spec_parse_function_declaration(old(self).source(), old(self).mark())
                    == ParseOutcome::<FunctionDeclarationView>::Failed(e@),
            },
        decreases self.nchars - self.mark(), 0int,
    {
        let start_span = match self.consume(Token::Fn) {
            Ok(v) => v,
            Err(e) => {
                return Err(e);
            },
        };
        let identifier = match self.consume_identifier() {
            Ok(v) => v,
            Err(e) => {
                return Err(e);
            },
        };
        match self.consume(Token::LParen) {
            Ok(_) => {},
            Err(e) => {
                return Err(e);
            },
        }
        let parameters = match self.parse_parameters() {
            Ok(v) => v,
            Err(e) => {
                return Err(e);
            },
        };
        match self.consume(Token::RParen) {
            Ok(_) => {},
            Err(e) => {
                return Err(e);
            },
        }
        match self.consume(Token::RightArrow) {
            Ok(_) => {},
            Err(e) => {
                return Err(e);
            },
        }
        let return_type = match self.consume_identifier() {
            Ok(v) => v,
            Err(e) => {
                return Err(e);
            },
        };
        match self.consume(Token::LBrace) {
            Ok(_) => {},
            Err(e) => {
                return Err(e);
            },
        }
        let body = match self.parse_statements_in_body() {
            Ok(v) => v,
            Err(e) => {
                return Err(e);
            },
        };
        let end_span = match self.consume(Token::RBrace) {
            Ok(v) => v,
            Err(e) => {
                return Err(e);
            },
        };
        Ok(
            FunctionDeclaration {
                identifier,
                parameters,
                return_type,
                body,
                span: Span { start: start_span.start, end: end_span.end },
            },
        )
    }

    /// Parses the statements of a function body, up to but not including
    /// the closing `}`.
    #[verifier::rlimit(100)]
    fn parse_statements_in_body(&mut self) -> (r: Result<Vec<Statement>, ParserError>)
        requires
            old(self).wf(),
        ensures
            final(self).source() == old(self).source(),
            final(self).nchars == old(self).nchars,
            match r {
                Ok(v) => {
                    &&& final(self).wf()
                    &&& old(self).mark() <= final(self).mark()
                    &&& spec_parse_statements_in_body(old(self).source(), old(self).mark())
                        == ParseOutcome::Parsed(stmt_views(v@), final(self).mark())
                },
                Err(e) => spec_parse_statements_in_body(old(self).source(), old(self).mark())
                    == ParseOutcome::<Seq<StatementView>>::Failed(e@),
            },
        decreases self.nchars - self.mark(), 2int,
    {
        if matches!(&self.current, Some((Token::RBrace, _))) {
            let r: Vec<Statement> = Vec::new();
            proof {
                assert(stmt_views(r@) =~= Seq::<StatementView>::empty());
            }
            return Ok(r);
        }
        let st = match self.parse_statement() {
            Ok(v) => v,
            Err(e) => {
                return Err(e);
            },
        };
        let mut rest = match self.parse_statements_in_body() {
            Ok(v) => v,
            Err(e) => {
                return Err(e);
            },
        };
        let ghost rest0 = rest@;
        rest.insert(0, st);
        proof {
            assert(rest@ =~= seq![st] + rest0);
            assert(rest@.subrange(1, rest@.len() as int) =~= rest0);
            assert(stmt_views(rest@) == seq![stmt_view(st)] + stmt_views(rest0));
        }
        Ok(rest)
    }

    /// Parses the top-level statements of a program, until the input ends.
    #[verifier::rlimit(100)]
    fn parse_statements_top(&mut self) -> (r: Result<Vec<Statement>, ParserError>)
        requires
            old(self).wf(),
        ensures
            final(self).source() == old(self).source(),
            final(self).nchars == old(self).nchars,
            match r {
                Ok(v) => {
                    &&& final(self).wf()
                    &&& spec_parse_statements_top(old(self).source(), old(self).mark())
                        == ParseOutcome::Parsed(stmt_views(v@), final(self).mark())
                },
                Err(e) => spec_parse_statements_top(old(self).source(), old(self).mark())
                    == ParseOutcome::<Seq<StatementView>>::Failed(e@),
            },
        decreases self.nchars - self.mark(),
    {
        if self.current.is_none() {
            let r: Vec<Statement> = Vec::new();
            proof {
                assert(stmt_views(r@) =~= Seq::<StatementView>::empty());
            }
            return Ok(r);
        }
        let st = match self.parse_statement() {
            Ok(v) => v,
            Err(e) => {
                return Err(e);
            },
        };
        let mut rest = match self.parse_statements_top() {
            Ok(v) => v,
            Err(e) => {
                return Err(e);
            },
        };
        let ghost rest0 = rest@;
        rest.insert(0, st);
        proof {
            assert(rest@ =~= seq![st] + rest0);
            assert(rest@.subrange(1, rest@.len() as int) =~= rest0);
            assert(stmt_views(rest@) == seq![stmt_view(st)] + stmt_views(rest0));
        }
        Ok(rest)
    }

    /// Parses the whole source as a program: statements until the end of
    /// the input. The program's span covers the whole source. The parse is
    /// exactly what the specification-level grammar [`spec_parse_program`]
    /// says of the source's character sequence, both on success and in the
    /// error it fails with.
    pub fn parse(self) -> (r: Result<Program, ParserError>)
        ensures
            match r {
                Ok(p) => spec_parse_program(self.source()) matches ParseOutcome::Parsed(pv, _)
                    && pv == p@,
                Err(e) => spec_parse_program(self.source()) == ParseOutcome::<
                    ProgramView,
                >::Failed(e@),
            },
    {
        let mut this = self;
        this.nchars = this.src.unicode_len();
        this.pos = 0;
        this.current = None;
        this.mark = Ghost(0);
        match this.advance() {
            Ok(()) => {},
            Err(e) => {
                return Err(ParserError::LexerError(e));
            },
        }
        let statements = match this.parse_statements_top() {
            Ok(v) => v,
            Err(e) => {
                return Err(e);
            },
        };
        Ok(Program { statements, span: Span { start: 0, end: this.nchars } })
    }

    /// Parses the leading expression of the source, ignoring whatever
    /// follows it: the expression is exactly what the specification-level
    /// grammar [`spec_parse_expression`] says of the source's character
    /// sequence from its start, both on success and in the error it fails
    /// with.
    pub fn parse_single_expression(self) -> (r: Result<Expression, ParserError>)
        ensures
            match r {
                Ok(e) => spec_parse_expression(self.source(), 0) matches ParseOutcome::Parsed(
                    ev,
                    _,
                ) && ev == e@,
                Err(e) => spec_parse_expression(self.source(), 0) == ParseOutcome::<
                    ExpressionView,
                >::Failed(e@),
            },
    {
        let mut this = self;
        this.nchars = this.src.unicode_len();
        this.pos = 0;
        this.current = None;
        this.mark = Ghost(0);
        match this.advance() {
            Ok(()) => {},
            Err(e) => {
                return Err(ParserError::LexerError(e));
            },
        }
        this.parse_expression()
    }
}

} // verus!
