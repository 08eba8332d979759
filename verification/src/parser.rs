use crate::errors::CompileError;
use crate::lexer::{create_tokens, lex_spec, tokens_model, Token, TokenModel};
use vstd::prelude::*;
use vstd::string::StrSliceExecFns;

verus! {

/// The kind of one node of the expression tree. `Value` is a generic
/// placeholder kind that the grammar never produces.
#[derive(Clone, Copy, Debug, PartialEq, Eq, Structural)]
pub enum AstType {
    Number,
    Addition,
    Subtraction,
    Multiplication,
    Division,
    Value,
}

/// One node of the expression tree. A leaf is a number node without
/// children; an internal node is an operator node owning both children.
/// `value` holds the numeric literal of a leaf or the symbol of an
/// operator, as text.
#[derive(Debug)]
pub struct AstNode {
    pub node_type: AstType,
    pub left: Option<Box<AstNode>>,
    pub right: Option<Box<AstNode>>,
    pub value: String,
}

/// The node kind an operator text resolves to: the fixed mapping of the
/// grammar.
pub open spec fn operator_kind_for(text: Seq<char>) -> Option<AstType> {
    if text.len() == 1 && text[0] == '+' {
        Some(AstType::Addition)
    } else if text.len() == 1 && text[0] == '-' {
        Some(AstType::Subtraction)
    } else if text.len() == 1 && text[0] == '*' {
        Some(AstType::Multiplication)
    } else if text.len() == 1 && text[0] == '/' {
        Some(AstType::Division)
    } else {
        None
    }
}

/// A leaf of the tree: a number node carrying `text`, with no children.
pub open spec fn is_leaf_node(node: AstNode, text: Seq<char>) -> bool {
    &&& node.node_type == AstType::Number
    &&& node.value@ == text
    &&& node.left is None
    &&& node.right is None
}

/// The tree a token sequence parses to: the kind resolved from the token in
/// operator position over two number leaves built from the two operand
/// tokens, with the operator's text as the root's value.
pub open spec fn parsed_node_matches(node: AstNode, ts: Seq<TokenModel>) -> bool {
    &&& ts.len() >= 4
    &&& operator_kind_for(ts[1].text) matches Some(kind) && node.node_type == kind
    &&& node.value@ == ts[1].text
    &&& node.left matches Some(l) && is_leaf_node(*l, ts[2].text)
    &&& node.right matches Some(r) && is_leaf_node(*r, ts[3].text)
}

/// What parsing a text yields when it succeeds: the text lexes, and the
/// tree matches its token sequence.
pub open spec fn parse_accepts(s: Seq<char>, node: AstNode) -> bool {
    &&& lex_spec(s) matches Ok(ts)
    &&& parsed_node_matches(node, ts)
}

/// Resolves an operator token's text to its node kind, or fails naming the
/// text.
fn operator_from_token(op: &str) -> (r: Result<AstType, CompileError>)
    ensures
        match r {
            Ok(kind) => operator_kind_for(op@) == Some(kind),
            Err(e) => {
                &&& operator_kind_for(op@) is None
                &&& e matches CompileError::UnsupportedOperatorError { op: text } && text@ == op@
            },
        },
{
    if op.unicode_len() == 1 {
        let c = op.get_char(0);
        match c {
            '+' => Ok(AstType::Addition),
            '*' => Ok(AstType::Multiplication),
            '/' => Ok(AstType::Division),
            '-' => Ok(AstType::Subtraction),
            _ => Err(CompileError::UnsupportedOperatorError { op: op.to_owned() }),
        }
    } else {
        Err(CompileError::UnsupportedOperatorError { op: op.to_owned() })
    }
}

/// Builds a number leaf from one token's text.
fn convert_to_node(token: &Token) -> (r: AstNode)
    ensures
        is_leaf_node(r, token.value@),
{
    AstNode { node_type: AstType::Number, value: token.value.clone(), left: None, right: None }
}

/// Parses one parenthesized prefix expression: lexes the text, demands at
/// least four tokens, resolves the operator in position 1, and builds the
/// tree over the operand tokens in positions 2 and 3. A lexing failure
/// propagates unchanged; a token sequence shorter than four tokens is a
/// structural failure; an operator text outside the grammar's mapping is an
/// unsupported-operator failure naming that text.
pub fn parse_program(program: &str) -> (r: Result<AstNode, CompileError>)
    ensures
        match r {
            Ok(node) => parse_accepts(program@, node),
            Err(e) => match e {
                CompileError::LexError { ch } => lex_spec(program@) == Err::<
                    Seq<TokenModel>,
                    char,
                >(ch),
                CompileError::StructuralError => lex_spec(program@) matches Ok(ts) && ts.len() < 4,
                CompileError::UnsupportedOperatorError { op } => {
                    &&& lex_spec(program@) matches Ok(ts)
                    &&& ts.len() >= 4
                    &&& operator_kind_for(ts[1].text) is None
                    &&& op@ == ts[1].text
                },
            },
        },
{
    let tokens = match create_tokens(program) {
        Ok(tokens) => tokens,
        Err(e) => {
            return Err(e);
        },
    };
    proof {
        assert(tokens_model(tokens@).len() == tokens@.len());
    }
    if tokens.len() < 4 {
        return Err(CompileError::StructuralError);
    }
    proof {
        assert(tokens_model(tokens@)[1] == tokens@[1]@);
        assert(tokens_model(tokens@)[2] == tokens@[2]@);
        assert(tokens_model(tokens@)[3] == tokens@[3]@);
    }
    let op = match operator_from_token(tokens[1].value.as_str()) {
        Ok(op) => op,
        Err(e) => {
            return Err(e);
        },
    };
    let left_op = convert_to_node(&tokens[2]);
    let right_op = convert_to_node(&tokens[3]);
    Ok(
        AstNode {
            node_type: op,
            left: Some(Box::new(left_op)),
            right: Some(Box::new(right_op)),
            value: tokens[1].value.clone(),
        },
    )
}

} // verus!
