//! Reading style settings.

use crate::util::push_char;
use vstd::prelude::*;
use vstd::string::StringExecFns;

verus! {

/// The names among `modifiers`, each followed by a bar.
pub open spec fn barred(modifiers: Seq<Option<Seq<char>>>) -> Seq<char>
    decreases modifiers.len(),
{
    if modifiers.len() == 0 {
        Seq::empty()
    } else {
        barred(modifiers.drop_last()) + match modifiers.last() {
            Some(name) => name + seq!['|'],
            None => Seq::empty(),
        }
    }
}

/// Whether any of `modifiers` is a name.
pub open spec fn any_named(modifiers: Seq<Option<Seq<char>>>) -> bool {
    exists|i: int| 0 <= i < modifiers.len() && (#[trigger] modifiers[i]) is Some
}

/// The names among `modifiers` with a bar between them and a bar at the
/// end: a single bar where there is no name.
pub open spec fn joined_modifiers(modifiers: Seq<Option<Seq<char>>>) -> Seq<char> {
    if any_named(modifiers) {
        barred(modifiers)
    } else {
        seq!['|']
    }
}

proof fn lemma_unnamed_barred_empty(modifiers: Seq<Option<Seq<char>>>)
    requires
        !any_named(modifiers),
    ensures
        barred(modifiers) == Seq::<char>::empty(),
    decreases modifiers.len(),
{
    if modifiers.len() > 0 {
        let rest = modifiers.drop_last();
        if any_named(rest) {
            let w = choose|w: int| 0 <= w < rest.len() && (#[trigger] rest[w]) is Some;
            assert(modifiers[w] is Some);
        }
        lemma_unnamed_barred_empty(rest);
        assert(modifiers[modifiers.len() - 1] is None);
    }
}

/// The view of a list of optional names.
pub open spec fn names_view(modifiers: Seq<Option<String>>) -> Seq<Option<Seq<char>>> {
    modifiers.map_values(
        |m: Option<String>|
            match m {
                Some(s) => Some(s@),
                None => None,
            },
    )
}

/// Writes a list of style modifiers as one setting: the entries that are
/// names, in their order, with a bar after each. Entries that are no names
/// are left out without a word.
pub fn join_modifier_array(modifiers: &Vec<Option<String>>) -> (joined: String)
    ensures
        joined@ == joined_modifiers(names_view(modifiers@)),
{
    let ghost names = names_view(modifiers@);
    let mut out = String::new();
    let mut named = false;
    let mut i: usize = 0;
    while i < modifiers.len()
        invariant
            i <= modifiers.len(),
            names == names_view(modifiers@),
            out@ == barred(names.subrange(0, i as int)),
            named == any_named(names.subrange(0, i as int)),
        decreases modifiers.len() - i,
    {
        let ghost before = names.subrange(0, i as int);
        let ghost after = names.subrange(0, i + 1);
        assert(after.drop_last() =~= before);
        assert(after.last() == names[i as int]);
        match &modifiers[i] {
            Some(name) => {
                out.append(name.as_str());
                push_char(&mut out, '|');
                named = true;
                assert(after[i as int] is Some);
            },
            None => {
                proof {
                    if any_named(after) {
                        let w = choose|w: int| 0 <= w < after.len() && (#[trigger] after[w]) is Some;
                        assert(before[w] is Some);
                    }
                    if any_named(before) {
                        let w = choose|w: int| 0 <= w < before.len() && (#[trigger] before[w]) is Some;
                        assert(after[w] is Some);
                    }
                }
            },
        }
        assert(out@ =~= barred(after));
        i += 1;
    }
    assert(names.subrange(0, i as int) =~= names);
    if !named {
        proof {
            lemma_unnamed_barred_empty(names);
        }
        push_char(&mut out, '|');
        assert(out@ =~= seq!['|']);
    }
    out
}

} // verus!
