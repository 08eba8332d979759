use prefix_compiler::parser::parse_program;
use prefix_compiler::traverser::{Emitter, Traverser};

fn compile(program: &str) -> Vec<String> {
    let ast = parse_program(program).unwrap();
    let mut traverser = Traverser::new();
    traverser.traverse(ast);
    traverser.instructions()
}

#[test]
fn traverse_addition() {
    let ast = parse_program("(+ 1 2)").unwrap();
    let mut traverser = Traverser::new();
    traverser.traverse(ast);
    let program = traverser.instructions();

    assert_eq!("PUSH 1", program[0]);
    assert_eq!("PUSH 2", program[1]);
    assert_eq!("ADD", program[2]);
}

#[test]
fn compiling_addition_end_to_end() {
    assert_eq!(compile("(+ 1 5)"), vec!["PUSH 1", "PUSH 5", "ADD"]);
}

#[test]
fn compiling_multiplication_end_to_end() {
    assert_eq!(compile("(* 3 4)"), vec!["PUSH 3", "PUSH 4", "MUL"]);
}

#[test]
fn compiling_division_end_to_end() {
    assert_eq!(compile("(/ 8 2)"), vec!["PUSH 8", "PUSH 2", "DIV"]);
}

#[test]
fn compiling_subtraction_end_to_end() {
    assert_eq!(compile("(- 9 6)"), vec!["PUSH 9", "PUSH 6", "SUB"]);
}

#[test]
fn compiling_twice_yields_identical_instructions() {
    for program in ["(+ 1 5)", "(* 3 4)", "(/ 8 2)", "(- 9 6)"] {
        assert_eq!(compile(program), compile(program));
    }
}

#[test]
fn emitter_push_number_appends_push() {
    let mut emitter = Emitter::new();
    emitter.push_number("7".to_string());
    assert_eq!(emitter.instructions(), vec!["PUSH 7"]);
}

#[test]
fn emitter_push_operator_appends_each_mnemonic() {
    let mut emitter = Emitter::new();
    emitter.push_operator("+".to_string());
    emitter.push_operator("-".to_string());
    emitter.push_operator("*".to_string());
    emitter.push_operator("/".to_string());
    assert_eq!(emitter.instructions(), vec!["ADD", "SUB", "MUL", "DIV"]);
}

#[test]
fn emitter_push_operator_ignores_unknown_text() {
    let mut emitter = Emitter::new();
    emitter.push_operator("%".to_string());
    assert!(emitter.instructions().is_empty());
}

#[test]
fn fresh_traverser_has_no_instructions() {
    let traverser = Traverser::new();
    assert!(traverser.instructions().is_empty());
}
