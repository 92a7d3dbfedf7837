use rscript::ast::{
    BooleanLiteral, Expression, Identifier, Program, Statement, StringLiteral,
    VariableDeclaration,
};
use rscript::runtime::environment::{Environment, EnvironmentError, Value};
use rscript::runtime::{Runtime, RuntimeError};
use rscript::span::Span;

#[test]
fn let_statement_binds_its_value() {
    let mut runtime = Runtime::new();
    runtime.execute("let x = 5;").unwrap();
    assert_eq!(runtime.environment.get_variable("x"), Some(&Value::Int(5)));
}

#[test]
fn later_declarations_replace_earlier_ones() {
    let mut runtime = Runtime::new();
    runtime.execute("let x = 1;\nlet x = 2;").unwrap();
    assert_eq!(runtime.environment.get_variable("x"), Some(&Value::Int(2)));
}

#[test]
fn identifier_initializer_copies_the_binding() {
    let mut runtime = Runtime::new();
    runtime.execute("let x = 7; let y = x;").unwrap();
    assert_eq!(runtime.environment.get_variable("y"), Some(&Value::Int(7)));
}

#[test]
fn float_literal_initializer_evaluates_to_its_text() {
    let mut runtime = Runtime::new();
    runtime.execute("let p = 2.5;").unwrap();
    assert_eq!(runtime.environment.get_variable("p"), Some(&Value::Float("2.5".to_string())));
}

#[test]
fn boolean_and_string_literals_evaluate() {
    // The expression grammar only produces integer literals, float
    // literals and identifiers, so trees holding the other literal kinds
    // are built directly.
    let sp = Span { start: 0, end: 0 };
    let program = Program {
        statements: vec![
            Statement::VariableDeclaration(VariableDeclaration {
                identifier: Identifier { name: "t".to_string(), span: sp },
                initializer: Expression::BooleanLiteral(BooleanLiteral { value: true, span: sp }),
                span: sp,
            }),
            Statement::VariableDeclaration(VariableDeclaration {
                identifier: Identifier { name: "s".to_string(), span: sp },
                initializer: Expression::StringLiteral(StringLiteral {
                    value: "\"hi\"".to_string(),
                    span: sp,
                }),
                span: sp,
            }),
        ],
        span: sp,
    };
    let mut runtime = Runtime::new();
    runtime.execute_program(program).unwrap();
    assert_eq!(runtime.environment.get_variable("t"), Some(&Value::Bool(true)));
    assert_eq!(runtime.environment.get_variable("s"), Some(&Value::Str("\"hi\"".to_string())));
}

#[test]
fn unknown_identifier_is_a_variable_not_found_error() {
    let mut runtime = Runtime::new();
    let err = runtime.execute("let y = x;").unwrap_err();
    assert_eq!(
        err,
        RuntimeError::EnvironmentError(EnvironmentError::VariableNotFound("x".to_string()))
    );
}

#[test]
fn parse_failures_surface_as_parser_errors() {
    let mut runtime = Runtime::new();
    let err = runtime.execute("let x = ;").unwrap_err();
    assert!(matches!(err, RuntimeError::ParserError(_)));
}

#[test]
fn unexecuted_statement_kinds_fail_explicitly() {
    let mut runtime = Runtime::new();
    let err = runtime.execute("return 5;").unwrap_err();
    assert!(matches!(err, RuntimeError::UnsupportedConstruct(_)));
}

#[test]
fn unevaluated_expression_kinds_fail_explicitly() {
    let mut runtime = Runtime::new();
    let err = runtime.execute("let x = a + b;").unwrap_err();
    assert!(matches!(err, RuntimeError::UnsupportedConstruct(_)));
}

#[test]
fn statements_before_a_failure_stay_executed() {
    let mut runtime = Runtime::new();
    let err = runtime.execute("let x = 1; let y = missing;").unwrap_err();
    assert!(matches!(err, RuntimeError::EnvironmentError(_)));
    assert_eq!(runtime.environment.get_variable("x"), Some(&Value::Int(1)));
}

#[test]
fn shadowing_resolves_to_the_innermost_scope() {
    let mut env = Environment::new();
    env.declare_variable("x".to_string(), Value::Int(1)).unwrap();
    env.push_scope();
    env.declare_variable("x".to_string(), Value::Int(2)).unwrap();
    assert_eq!(env.get_variable("x"), Some(&Value::Int(2)));
    env.pop_scope();
    assert_eq!(env.get_variable("x"), Some(&Value::Int(1)));
}

#[test]
fn popping_the_last_scope_is_a_no_op() {
    let mut env = Environment::new();
    env.declare_variable("x".to_string(), Value::Int(1)).unwrap();
    assert_eq!(env.scope_count(), 1);
    env.pop_scope();
    assert_eq!(env.scope_count(), 1);
    assert_eq!(env.get_variable("x"), Some(&Value::Int(1)));
}

#[test]
fn set_variable_writes_into_the_innermost_scope() {
    let mut env = Environment::new();
    env.declare_variable("x".to_string(), Value::Int(1)).unwrap();
    env.push_scope();
    env.set_variable("x".to_string(), Value::Int(9)).unwrap();
    assert_eq!(env.get_variable("x"), Some(&Value::Int(9)));
    env.pop_scope();
    // The write landed in the popped scope, not the outer binding.
    assert_eq!(env.get_variable("x"), Some(&Value::Int(1)));
}

#[test]
fn get_variable_misses_on_an_empty_environment() {
    let env = Environment::new();
    assert_eq!(env.get_variable("nothing"), None);
}

#[test]
fn values_clone_deeply() {
    let v = Value::StructInstance(rscript::runtime::environment::StructInstance {
        name: "P".to_string(),
        fields: vec![
            ("a".to_string(), Value::Int(1)),
            ("b".to_string(), Value::Str("\"s\"".to_string())),
        ],
    });
    let w = v.clone();
    assert_eq!(v, w);
}
