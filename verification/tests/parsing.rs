use prefix_compiler::errors::CompileError;
use prefix_compiler::parser::{parse_program, AstType};

#[test]
fn ast_has_addition_type() {
    let ast = parse_program("(+ 1 2)").unwrap();
    assert_eq!(ast.node_type, AstType::Addition);
}

#[test]
fn ast_left_node_type_is_number() {
    let ast = parse_program("(+ 1 2)").unwrap();
    assert_eq!(ast.left.unwrap().node_type, AstType::Number);
}

#[test]
fn ast_left_node_is_number() {
    let ast = parse_program("(+ 1 2)").unwrap();
    assert_eq!(ast.left.unwrap().value, "1");
}

#[test]
fn ast_right_node_type_is_number() {
    let ast = parse_program("(+ 1 2)").unwrap();
    assert_eq!(ast.right.unwrap().node_type, AstType::Number);
}

#[test]
fn ast_right_node_is_number() {
    let ast = parse_program("(+ 1 2)").unwrap();
    assert_eq!(ast.right.unwrap().value, "2");
}

#[test]
fn ast_has_subtraction_type() {
    let ast = parse_program("(- 5 2)").unwrap();
    assert_eq!(ast.node_type, AstType::Subtraction);
}

#[test]
fn ast_has_multiply_type() {
    let ast = parse_program("(* 5 4)").unwrap();
    assert_eq!(ast.node_type, AstType::Multiplication);
}

#[test]
fn ast_has_division_type() {
    let ast = parse_program("(/ 16 4)").unwrap();
    assert_eq!(ast.node_type, AstType::Division);
}

#[test]
fn returns_err_if_operator_is_unknown() {
    let ast = parse_program("($ 16 4)");

    assert!(ast.is_err());
}

#[test]
fn every_operator_maps_to_its_kind() {
    let cases = [
        ("(+ 1 2)", AstType::Addition),
        ("(- 1 2)", AstType::Subtraction),
        ("(* 1 2)", AstType::Multiplication),
        ("(/ 1 2)", AstType::Division),
    ];
    for (text, kind) in cases {
        let ast = parse_program(text).unwrap();
        assert_eq!(ast.node_type, kind);
        assert_eq!(ast.value, text[1..2].to_string());
        let left = ast.left.unwrap();
        assert_eq!(left.node_type, AstType::Number);
        assert_eq!(left.value, "1");
        assert!(left.left.is_none() && left.right.is_none());
        let right = ast.right.unwrap();
        assert_eq!(right.node_type, AstType::Number);
        assert_eq!(right.value, "2");
        assert!(right.left.is_none() && right.right.is_none());
    }
}

#[test]
fn too_short_input_is_a_structural_error() {
    assert_eq!(parse_program("(+").unwrap_err(), CompileError::StructuralError);
}

#[test]
fn empty_input_is_a_structural_error() {
    assert_eq!(parse_program("").unwrap_err(), CompileError::StructuralError);
}

#[test]
fn unsupported_token_in_operator_position_is_named() {
    let err = parse_program("(1 2 3)").unwrap_err();
    assert_eq!(
        err,
        CompileError::UnsupportedOperatorError { op: "1".to_string() }
    );
}

#[test]
fn lex_failure_propagates_unchanged_through_parsing() {
    let err = parse_program("($ 1 2)").unwrap_err();
    assert_eq!(err, CompileError::LexError { ch: '$' });
}
