//! The grammar with its rules kept as text, and its operand table.
use vstd::prelude::*;

use crate::grammar::{entry_shape, grammar_rules, grammar_shape, GrammarEltBase, InstrClass};
use crate::mut_map::MutStrMap;
use crate::sassas_grammar::{operand_enc_ok, operand_table, OperandEnc};

pub use crate::grammar::InstrType;

verus! {

/// An encoding of an opcode with its rule as text.
pub type GrammarElt = GrammarEltBase;

/// The code and class of every encoding in a list.
pub open spec fn elts_shape(v: Seq<GrammarElt>) -> Seq<(u64, InstrClass)> {
    v.map_values(|g: GrammarElt| (g.code, g.itype))
}

/// The map that inserting the entries of `s` in order gives.
pub open spec fn shape_map(s: Seq<(Seq<char>, Seq<(u64, InstrClass)>)>) -> Map<
    Seq<char>,
    Seq<(u64, InstrClass)>,
>
    decreases s.len(),
{
    if s.len() == 0 {
        Map::empty()
    } else {
        shape_map(s.drop_last()).insert(s.last().0, s.last().1)
    }
}

/// The grammar keyed by opcode (a later entry for the same opcode would
/// replace an earlier one).
pub fn build_grammar() -> (g: MutStrMap<Vec<GrammarElt>>)
    ensures
        g@.map_values(|v: Vec<GrammarElt>| elts_shape(v@)) == shape_map(grammar_shape()),
{
    let rules = grammar_rules();
    let ghost shapes = rules@.map_values(|e: (&'static str, Vec<GrammarEltBase>)| entry_shape(e));
    let mut g: MutStrMap<Vec<GrammarElt>> = MutStrMap::new();
    let mut i: usize = 0;
    proof {
        assert(g@.map_values(|v: Vec<GrammarElt>| elts_shape(v@)) =~= shape_map(shapes.take(0)));
    }
    while i < rules.len()
        invariant
            i <= rules@.len(),
            shapes == rules@.map_values(|e: (&'static str, Vec<GrammarEltBase>)| entry_shape(e)),
            g@.map_values(|v: Vec<GrammarElt>| elts_shape(v@)) == shape_map(shapes.take(i as int)),
        decreases rules@.len() - i,
    {
        let (name, elts) = &rules[i];
        let ghost before = g@;
        let copy = elts.clone();
        proof {
            assert(copy@ =~= elts@);
        }
        g.insert(name, copy);
        proof {
            assert(shapes.take(i + 1).drop_last() =~= shapes.take(i as int));
            assert(g@.map_values(|v: Vec<GrammarElt>| elts_shape(v@)) =~= before.map_values(
                |v: Vec<GrammarElt>| elts_shape(v@),
            ).insert(name@, elts_shape(elts@)));
        }
        i = i + 1;
    }
    proof {
        assert(shapes.take(rules@.len() as int) =~= shapes);
    }
    g
}

/// The operand fields of the grammar and how each is encoded.
pub fn build_operands() -> (operands: MutStrMap<OperandEnc>)
    ensures
        operands@ == operand_table(),
        forall|k: Seq<char>| #[trigger] operands@.contains_key(k) ==> operand_enc_ok(operands@[k]),
{
    crate::sassas_grammar::build_operands()
}

} // verus!
