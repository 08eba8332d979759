use crate::parser::{AstNode, AstType};
use vstd::prelude::*;
use vstd::string::StrSliceExecFns;
use vstd::string::StringExecFns;

verus! {

/// The `PUSH` instruction for a numeric literal text.
pub open spec fn push_instr(value: Seq<char>) -> Seq<char> {
    seq!['P', 'U', 'S', 'H', ' '] + value
}

/// The mnemonic emitted for an operator text: a distinct instruction for
/// each supported operator.
pub open spec fn mnemonic_for(op: Seq<char>) -> Option<Seq<char>> {
    if op.len() == 1 && op[0] == '+' {
        Some(seq!['A', 'D', 'D'])
    } else if op.len() == 1 && op[0] == '-' {
        Some(seq!['S', 'U', 'B'])
    } else if op.len() == 1 && op[0] == '*' {
        Some(seq!['M', 'U', 'L'])
    } else if op.len() == 1 && op[0] == '/' {
        Some(seq!['D', 'I', 'V'])
    } else {
        None
    }
}

/// What processing an operator text appends: its mnemonic, or nothing for a
/// text outside the grammar's operator set.
pub open spec fn mnemonic_output(op: Seq<char>) -> Seq<Seq<char>> {
    match mnemonic_for(op) {
        Some(m) => seq![m],
        None => Seq::empty(),
    }
}

/// The instructions one node itself contributes, after its children: one
/// `PUSH` for a number, one mnemonic for an operator, nothing for the
/// placeholder kind.
pub open spec fn node_output(node_type: AstType, value: Seq<char>) -> Seq<Seq<char>> {
    match node_type {
        AstType::Number => seq![push_instr(value)],
        AstType::Value => Seq::empty(),
        _ => mnemonic_output(value),
    }
}

/// The instructions a tree emits, in fixed post order: the left child's,
/// then the right child's, then the node's own.
pub open spec fn emit_node(node: AstNode) -> Seq<Seq<char>>
    decreases node,
{
    (match node.left {
        Some(l) => emit_node(*l),
        None => Seq::empty(),
    }) + (match node.right {
        Some(r) => emit_node(*r),
        None => Seq::empty(),
    }) + node_output(node.node_type, node.value@)
}

/// Accumulates emitted instructions into one ordered, append-only list.
pub struct Emitter {
    instructions: Vec<String>,
}

impl View for Emitter {
    type V = Seq<Seq<char>>;

    closed spec fn view(&self) -> Seq<Seq<char>> {
        self.instructions.deep_view()
    }
}

impl Emitter {
    /// A fresh emitter holding no instructions.
    pub fn new() -> (r: Emitter)
        ensures
            r@ == Seq::<Seq<char>>::empty(),
    {
        let e = Emitter { instructions: Vec::new() };
        proof {
            assert(e@ =~= Seq::<Seq<char>>::empty());
        }
        e
    }

    /// Appends `PUSH <value>`, with the literal text unmodified.
    pub fn push_number(&mut self, value: String)
        ensures
            final(self)@ == old(self)@.push(push_instr(value@)),
    {
        let mut instr = String::from_str("PUSH ");
        instr.append(value.as_str());
        proof {
            reveal_strlit("PUSH ");
            assert(instr@ =~= push_instr(value@));
        }
        self.instructions.push(instr);
        proof {
            assert(self@ =~= old(self)@.push(push_instr(value@)));
        }
    }

    /// Appends the mnemonic of a supported operator text; any other text
    /// contributes nothing.
    pub fn push_operator(&mut self, op: String)
        ensures
            final(self)@ == old(self)@ + mnemonic_output(op@),
    {
        if op.as_str().unicode_len() == 1 {
            let c = op.as_str().get_char(0);
            proof {
                assert(op@ =~= seq![c]);
            }
            if c == '+' {
                let m = String::from_str("ADD");
                proof {
                    reveal_strlit("ADD");
                    assert(m@ =~= seq!['A', 'D', 'D']);
                }
                self.instructions.push(m);
            } else if c == '-' {
                let m = String::from_str("SUB");
                proof {
                    reveal_strlit("SUB");
                    assert(m@ =~= seq!['S', 'U', 'B']);
                }
                self.instructions.push(m);
            } else if c == '*' {
                let m = String::from_str("MUL");
                proof {
                    reveal_strlit("MUL");
                    assert(m@ =~= seq!['M', 'U', 'L']);
                }
                self.instructions.push(m);
            } else if c == '/' {
                let m = String::from_str("DIV");
                proof {
                    reveal_strlit("DIV");
                    assert(m@ =~= seq!['D', 'I', 'V']);
                }
                self.instructions.push(m);
            }
        }
        proof {
            assert(self@ =~= old(self)@ + mnemonic_output(op@));
        }
    }

    /// The instructions emitted so far, in emission order.
    pub fn instructions(&self) -> (r: Vec<String>)
        ensures
            r.deep_view() == self@,
    {
        let r = self.instructions.clone();
        proof {
            assert forall|i: int| 0 <= i < r@.len() implies r@[i]@ == self.instructions@[i]@ by {
                assert(cloned::<String>(self.instructions[i], r[i]));
            }
            assert(r.deep_view() =~= self@);
        }
        r
    }
}

/// Walks a tree in post order and feeds its emitter.
pub struct Traverser {
    emitter: Emitter,
}

impl View for Traverser {
    type V = Seq<Seq<char>>;

    closed spec fn view(&self) -> Seq<Seq<char>> {
        self.emitter@
    }
}

impl Traverser {
    /// A fresh traverser over an empty emitter.
    pub fn new() -> (r: Traverser)
        ensures
            r@ == Seq::<Seq<char>>::empty(),
    {
        Traverser { emitter: Emitter::new() }
    }

    /// Walks `ast` in post order — left child, right child, then the node
    /// itself — appending each node's instructions; nothing already emitted
    /// is removed or reordered.
    pub fn traverse(&mut self, ast: AstNode)
        ensures
            final(self)@ == old(self)@ + emit_node(ast),
        decreases ast,
    {
        let ghost start = self@;
        let AstNode { node_type, left, right, value } = ast;
        match left {
            Some(l) => self.traverse(*l),
            None => {},
        }
        match right {
            Some(r) => self.traverse(*r),
            None => {},
        }
        match node_type {
            AstType::Number => self.emitter.push_number(value),
            AstType::Value => {},
            _ => self.emitter.push_operator(value),
        }
        proof {
            assert(self@ =~= start + emit_node(ast));
        }
    }

    /// The instructions emitted by the walks so far, in order.
    pub fn instructions(&self) -> (r: Vec<String>)
        ensures
            r.deep_view() == self@,
    {
        self.emitter.instructions()
    }
}

} // verus!
