use crate::errors::ErrorModel;
use crate::lexer::{is_digit_char, is_operator_char, lex_spec, TokenModel, TokenType};
use crate::parser::{operator_kind_for, parse_accepts, AstNode, AstType};
use crate::traverser::{emit_node, mnemonic_for, push_instr};
use vstd::prelude::*;

verus! {

/// What the whole pipeline yields on a text: the instructions of the parsed
/// tree, or the first failure, which no later stage wraps or reinterprets.
pub open spec fn compile_spec(s: Seq<char>) -> Result<Seq<Seq<char>>, ErrorModel> {
    match lex_spec(s) {
        Err(c) => Err(ErrorModel::LexError { ch: c }),
        Ok(ts) => if ts.len() < 4 {
            Err(ErrorModel::StructuralError)
        } else {
            match mnemonic_for(ts[1].text) {
                None => Err(ErrorModel::UnsupportedOperatorError { op: ts[1].text }),
                Some(m) => Ok(seq![push_instr(ts[2].text), push_instr(ts[3].text), m]),
            }
        },
    }
}

/// The instructions of a tree that a text parses to are exactly what the
/// pipeline yields on that text: for one operator over two numeric leaves,
/// the list `PUSH <left>`, `PUSH <right>`, mnemonic.
pub proof fn lemma_parse_then_emit(s: Seq<char>, node: AstNode)
    requires
        parse_accepts(s, node),
    ensures
        compile_spec(s) == Ok::<Seq<Seq<char>>, ErrorModel>(emit_node(node)),
{
    let ts = lex_spec(s)->Ok_0;
    let l = *node.left->0;
    let r = *node.right->0;
    assert(emit_node(l) =~= seq![push_instr(ts[2].text)]);
    assert(emit_node(r) =~= seq![push_instr(ts[3].text)]);
    assert(mnemonic_for(ts[1].text) is Some);
    assert(emit_node(node) =~= seq![
        push_instr(ts[2].text),
        push_instr(ts[3].text),
        mnemonic_for(ts[1].text)->0,
    ]);
}

/// The text `(op a b)`: one operator applied to two single-digit operands,
/// the three separated by single spaces.
pub open spec fn fixed_expr(op: char, a: char, b: char) -> Seq<char> {
    seq!['(', op, ' ', a, ' ', b, ')']
}

/// Lexing `(op a b)` yields exactly the five tokens of its five
/// non-whitespace characters, in their source order.
pub proof fn lemma_lex_fixed_expr(op: char, a: char, b: char)
    requires
        is_operator_char(op),
        is_digit_char(a),
        is_digit_char(b),
    ensures
        lex_spec(fixed_expr(op, a, b)) == Ok::<Seq<TokenModel>, char>(
            seq![
                TokenModel { token_type: TokenType::LParen, text: seq!['('] },
                TokenModel { token_type: TokenType::Operator, text: seq![op] },
                TokenModel { token_type: TokenType::Number, text: seq![a] },
                TokenModel { token_type: TokenType::Number, text: seq![b] },
                TokenModel { token_type: TokenType::RParen, text: seq![')'] },
            ],
        ),
{
    let s7 = fixed_expr(op, a, b);
    let s6 = seq!['(', op, ' ', a, ' ', b];
    let s5 = seq!['(', op, ' ', a, ' '];
    let s4 = seq!['(', op, ' ', a];
    let s3 = seq!['(', op, ' '];
    let s2 = seq!['(', op];
    let s1 = seq!['('];
    let s0 = Seq::<char>::empty();
    assert(s1.drop_last() =~= s0 && s1.last() == '(');
    assert(s2.drop_last() =~= s1 && s2.last() == op);
    assert(s3.drop_last() =~= s2 && s3.last() == ' ');
    assert(s4.drop_last() =~= s3 && s4.last() == a);
    assert(s5.drop_last() =~= s4 && s5.last() == ' ');
    assert(s6.drop_last() =~= s5 && s6.last() == b);
    assert(s7.drop_last() =~= s6 && s7.last() == ')');
    let t1 = TokenModel { token_type: TokenType::LParen, text: seq!['('] };
    let t2 = TokenModel { token_type: TokenType::Operator, text: seq![op] };
    let t3 = TokenModel { token_type: TokenType::Number, text: seq![a] };
    let t4 = TokenModel { token_type: TokenType::Number, text: seq![b] };
    let t5 = TokenModel { token_type: TokenType::RParen, text: seq![')'] };
    assert(lex_spec(s0) == Ok::<Seq<TokenModel>, char>(Seq::empty()));
    assert(lex_spec(s1) == Ok::<Seq<TokenModel>, char>(Seq::empty().push(t1)));
    assert(lex_spec(s2) == Ok::<Seq<TokenModel>, char>(Seq::empty().push(t1).push(t2)));
    assert(lex_spec(s3) == lex_spec(s2));
    assert(lex_spec(s4) == Ok::<Seq<TokenModel>, char>(Seq::empty().push(t1).push(t2).push(t3)));
    assert(lex_spec(s5) == lex_spec(s4));
    assert(lex_spec(s6) == Ok::<Seq<TokenModel>, char>(
        Seq::empty().push(t1).push(t2).push(t3).push(t4),
    ));
    assert(lex_spec(s7) == Ok::<Seq<TokenModel>, char>(
        Seq::empty().push(t1).push(t2).push(t3).push(t4).push(t5),
    ));
    assert(Seq::empty().push(t1).push(t2).push(t3).push(t4).push(t5) =~= seq![
        t1,
        t2,
        t3,
        t4,
        t5,
    ]);
}

/// Compiling `(op a b)` yields exactly `PUSH a`, `PUSH b`, and the
/// operator's mnemonic.
pub proof fn lemma_compile_fixed_expr(op: char, a: char, b: char)
    requires
        is_operator_char(op),
        is_digit_char(a),
        is_digit_char(b),
    ensures
        compile_spec(fixed_expr(op, a, b)) == Ok::<Seq<Seq<char>>, ErrorModel>(
            seq![push_instr(seq![a]), push_instr(seq![b]), mnemonic_for(seq![op])->0],
        ),
{
    lemma_lex_fixed_expr(op, a, b);
    let ts = lex_spec(fixed_expr(op, a, b))->Ok_0;
    assert(ts[1].text == seq![op] && ts[2].text == seq![a] && ts[3].text == seq![b]);
    assert(mnemonic_for(seq![op]) is Some);
}

/// Parsing `(op a b)` yields a tree whose root kind is the operator's
/// mapping and whose left and right leaf values are the two operands.
pub proof fn lemma_parse_fixed_expr(op: char, a: char, b: char, node: AstNode)
    requires
        is_operator_char(op),
        is_digit_char(a),
        is_digit_char(b),
        parse_accepts(fixed_expr(op, a, b), node),
    ensures
        operator_kind_for(seq![op]) matches Some(kind) && node.node_type == kind,
        node.left matches Some(l) && l.node_type == AstType::Number && l.value@ == seq![a],
        node.right matches Some(r) && r.node_type == AstType::Number && r.value@ == seq![b],
{
    lemma_lex_fixed_expr(op, a, b);
}

/// Rerunning the pipeline on the same text yields an identical instruction
/// list or failure: each stage is a pure function of its input, with no
/// state kept across invocations, so the whole pipeline is one too.
pub proof fn lemma_pipeline_deterministic(
    s: Seq<char>,
    r1: Result<Seq<Seq<char>>, ErrorModel>,
    r2: Result<Seq<Seq<char>>, ErrorModel>,
)
    requires
        r1 == compile_spec(s),
        r2 == compile_spec(s),
    ensures
        r1 == r2,
{
}

} // verus!
