use rscript::ast::{
    BinaryOperator, Expression, Statement, StructDeclaration,
};
use rscript::lexer::{LexerError, ScanStep, Token, parse_string_literal, scan_token};
use rscript::parser::{Parser, ParserError};
use rscript::span::Span;

fn chars(s: &str) -> usize {
    s.chars().count()
}

#[test]
fn integer_literal_parses_with_exact_span() {
    let src = "12345";
    let expr = Parser::new(src).parse_single_expression().unwrap();
    match expr {
        Expression::IntegerLiteral(lit) => {
            assert_eq!(lit.value, 12345);
            assert_eq!(lit.span, Span { start: 0, end: 5 });
        },
        other => panic!("expected an integer literal, got {:?}", other),
    }
}

#[test]
fn integer_literal_at_i64_max_parses() {
    let src = "9223372036854775807";
    let expr = Parser::new(src).parse_single_expression().unwrap();
    match expr {
        Expression::IntegerLiteral(lit) => assert_eq!(lit.value, i64::MAX),
        other => panic!("expected an integer literal, got {:?}", other),
    }
}

#[test]
fn integer_literal_above_i64_max_is_a_lexical_error() {
    let src = "9223372036854775808";
    let err = Parser::new(src).parse_single_expression().unwrap_err();
    assert_eq!(err, ParserError::LexerError(LexerError::ParseIntError));
}

#[test]
fn unrecognized_character_is_a_lexical_error() {
    let err = Parser::new("?").parse().unwrap_err();
    assert_eq!(err, ParserError::LexerError(LexerError::Other));
}

#[test]
fn addition_of_identifiers_builds_a_binary_op() {
    let expr = Parser::new("a + b").parse_single_expression().unwrap();
    match expr {
        Expression::BinaryOp(op) => {
            assert_eq!(op.operator, BinaryOperator::Add);
            match (*op.left, *op.right) {
                (Expression::Identifier(l), Expression::Identifier(r)) => {
                    assert_eq!(l.name, "a");
                    assert_eq!(l.span, Span { start: 0, end: 1 });
                    assert_eq!(r.name, "b");
                    assert_eq!(r.span, Span { start: 4, end: 5 });
                    // The node's span covers the whole expression: it
                    // starts where `a` starts and ends where `b` ends.
                    assert_eq!(op.span.start, l.span.start);
                    assert_eq!(op.span.end, r.span.end);
                },
                other => panic!("expected identifier operands, got {:?}", other),
            }
        },
        other => panic!("expected a binary op, got {:?}", other),
    }
}

#[test]
fn multiplication_is_right_associative_by_construction() {
    let expr = Parser::new("a * b * c").parse_single_expression().unwrap();
    match expr {
        Expression::BinaryOp(op) => {
            assert_eq!(op.operator, BinaryOperator::Multiply);
            assert!(matches!(*op.left, Expression::Identifier(_)));
            match *op.right {
                Expression::BinaryOp(inner) => {
                    assert_eq!(inner.operator, BinaryOperator::Multiply);
                },
                other => panic!("expected a nested binary op, got {:?}", other),
            }
        },
        other => panic!("expected a binary op, got {:?}", other),
    }
}

#[test]
fn float_literal_keeps_its_source_text() {
    let expr = Parser::new("3.14").parse_single_expression().unwrap();
    match expr {
        Expression::FloatLiteral(lit) => {
            assert_eq!(lit.value, "3.14");
            assert_eq!(lit.span, Span { start: 0, end: 4 });
        },
        other => panic!("expected a float literal, got {:?}", other),
    }
}

#[test]
fn unterminated_tuple_struct_yields_unexpected_eof() {
    let err = Parser::new("struct P(").parse().unwrap_err();
    assert_eq!(err, ParserError::UnexpectedEof);
}

#[test]
fn end_to_end_struct_and_function_parse() {
    let src = "struct Point(int, int);\nfn main() -> int {\n    let x = 5;\n    return x;\n}";
    let program = Parser::new(src).parse().unwrap();
    assert_eq!(program.statements.len(), 2);
    assert_eq!(program.span, Span { start: 0, end: chars(src) });
    match &program.statements[0] {
        Statement::StructDeclaration(StructDeclaration::TupleStruct {
            identifier,
            fields,
            span,
        }) => {
            assert_eq!(identifier.name, "Point");
            assert_eq!(fields.len(), 2);
            assert_eq!(fields[0].declared_type.name, "int");
            assert_eq!(fields[1].declared_type.name, "int");
            assert_eq!(*span, Span { start: 0, end: 23 });
        },
        other => panic!("expected a tuple struct, got {:?}", other),
    }
    match &program.statements[1] {
        Statement::FunctionDeclaration(f) => {
            assert_eq!(f.identifier.name, "main");
            assert_eq!(f.parameters.len(), 0);
            assert_eq!(f.return_type.name, "int");
            assert_eq!(f.body.len(), 2);
            assert!(matches!(f.body[0], Statement::VariableDeclaration(_)));
            assert!(matches!(f.body[1], Statement::ReturnStatement(_)));
            // The two statements' spans cover the whole input but for the
            // whitespace between and around them.
            assert_eq!(f.span, Span { start: 24, end: chars(src) });
        },
        other => panic!("expected a function declaration, got {:?}", other),
    }
}

#[test]
fn named_struct_parses_fields_without_separators() {
    let program = Parser::new("struct S { a: int b: bool }").parse().unwrap();
    assert_eq!(program.statements.len(), 1);
    match &program.statements[0] {
        Statement::StructDeclaration(StructDeclaration::NamedStruct { identifier, fields, .. }) => {
            assert_eq!(identifier.name, "S");
            assert_eq!(fields.len(), 2);
            assert_eq!(fields[0].identifier.name, "a");
            assert_eq!(fields[0].declared_type.name, "int");
            assert_eq!(fields[1].identifier.name, "b");
            assert_eq!(fields[1].declared_type.name, "bool");
        },
        other => panic!("expected a named struct, got {:?}", other),
    }
}

#[test]
fn unit_struct_parses() {
    let program = Parser::new("struct Unit;").parse().unwrap();
    match &program.statements[0] {
        Statement::StructDeclaration(StructDeclaration::UnitStruct { identifier, span }) => {
            assert_eq!(identifier.name, "Unit");
            assert_eq!(*span, Span { start: 0, end: 12 });
        },
        other => panic!("expected a unit struct, got {:?}", other),
    }
}

#[test]
fn function_with_parameters_parses() {
    let program = Parser::new("fn add(a: int b: int) -> int { return a; }").parse().unwrap();
    match &program.statements[0] {
        Statement::FunctionDeclaration(f) => {
            assert_eq!(f.parameters.len(), 2);
            assert_eq!(f.parameters[0].identifier.name, "a");
            assert_eq!(f.parameters[0].declared_type.name, "int");
            assert_eq!(f.parameters[1].identifier.name, "b");
        },
        other => panic!("expected a function declaration, got {:?}", other),
    }
}

#[test]
fn bare_return_consumes_its_semicolon() {
    let program = Parser::new("fn f() -> unit { return; }").parse().unwrap();
    match &program.statements[0] {
        Statement::FunctionDeclaration(f) => {
            assert_eq!(f.body.len(), 1);
            match &f.body[0] {
                Statement::ReturnStatement(r) => assert!(r.value.is_none()),
                other => panic!("expected a return statement, got {:?}", other),
            }
        },
        other => panic!("expected a function declaration, got {:?}", other),
    }
}

#[test]
fn non_identifier_after_let_is_an_unexpected_token() {
    let err = Parser::new("let 5 = 3;").parse().unwrap_err();
    match err {
        ParserError::UnexpectedToken { expected, found, span } => {
            assert_eq!(expected, "identifier");
            assert_eq!(found, Some(Token::IntegerLiteral(5)));
            assert_eq!(span, Span { start: 4, end: 5 });
        },
        other => panic!("expected an unexpected-token error, got {:?}", other),
    }
}

#[test]
fn statement_starting_with_unsupported_token_errors() {
    let err = Parser::new("while true { }").parse().unwrap_err();
    match err {
        ParserError::UnexpectedToken { expected, found, .. } => {
            assert_eq!(expected, "statement");
            assert_eq!(found, Some(Token::While));
        },
        other => panic!("expected an unexpected-token error, got {:?}", other),
    }
}

#[test]
fn keywords_are_reserved_exact_matches() {
    let src = "letx let while whiley";
    let n = chars(src);
    let mut pos = 0;
    let mut tokens = Vec::new();
    loop {
        match scan_token(src, n, pos) {
            ScanStep::Token(t, sp) => {
                tokens.push(t);
                pos = sp.end;
            },
            ScanStep::End => break,
            ScanStep::Error(e, _) => panic!("unexpected lexical error {:?}", e),
        }
    }
    assert_eq!(
        tokens,
        vec![
            Token::Identifier("letx".to_string()),
            Token::Let,
            Token::While,
            Token::Identifier("whiley".to_string()),
        ]
    );
}

#[test]
fn string_literal_is_kept_verbatim() {
    let src = "\"he\\\"llo\" rest";
    let n = chars(src);
    match scan_token(src, n, 0) {
        ScanStep::Token(Token::Str(text), sp) => {
            assert_eq!(text, "\"he\\\"llo\"");
            assert_eq!(sp, Span { start: 0, end: 9 });
        },
        other => panic!("expected a string token, got {:?}", other),
    }
}

#[test]
fn unterminated_string_is_a_lexical_error() {
    let src = "\"never closed";
    let n = chars(src);
    match scan_token(src, n, 0) {
        ScanStep::Error(e, sp) => {
            assert_eq!(e, LexerError::Other);
            assert_eq!(sp, Span { start: 0, end: 1 });
        },
        other => panic!("expected a lexical error, got {:?}", other),
    }
}

#[test]
fn two_char_operators_win_over_one_char() {
    let src = "-> - == = != && ||";
    let n = chars(src);
    let mut pos = 0;
    let mut tokens = Vec::new();
    loop {
        match scan_token(src, n, pos) {
            ScanStep::Token(t, sp) => {
                tokens.push(t);
                pos = sp.end;
            },
            ScanStep::End => break,
            ScanStep::Error(e, _) => panic!("unexpected lexical error {:?}", e),
        }
    }
    assert_eq!(
        tokens,
        vec![
            Token::RightArrow,
            Token::Minus,
            Token::Equals,
            Token::Assign,
            Token::NotEquals,
            Token::And,
            Token::Or,
        ]
    );
}

#[test]
fn parse_string_literal_keeps_the_slice() {
    assert_eq!(parse_string_literal("\"a\\nb\""), Some("\"a\\nb\"".to_string()));
}

#[test]
fn span_combine_yields_the_smallest_covering_span() {
    let a = Span { start: 0, end: 1 };
    let b = Span { start: 4, end: 5 };
    assert_eq!(a.combine(b), Span { start: 0, end: 5 });
    assert_eq!(b.combine(a), Span { start: 0, end: 5 });
    assert_eq!(Span::default(), Span { start: 0, end: 0 });
}
