//! The structured-data substrate, as far as dispatch reads it: a node is a
//! scalar, a sequence, or a map of string-keyed entries. Scalars other than
//! strings are carried as their text; their own meaning is outside this
//! library.

use vstd::prelude::*;

verus! {

/// One serialized node.
#[derive(Debug, PartialEq, Eq)]
pub enum Node {
    Null,
    Bool(bool),
    Number(String),
    Text(String),
    Sequence(Vec<Node>),
    Mapping(Vec<(String, Node)>),
}

/// Whether some entry carries this key.
pub open spec fn spec_has_key<V>(entries: Seq<(String, V)>, k: Seq<char>) -> bool {
    exists|i: int| 0 <= i < entries.len() && entries[i].0@ == k
}

/// The position of the first entry carrying this key; meaningful only when
/// one exists.
pub open spec fn spec_key_index<V>(entries: Seq<(String, V)>, k: Seq<char>) -> int
    decreases entries.len(),
{
    if entries.len() == 0 {
        0
    } else if entries[0].0@ == k {
        0
    } else {
        1 + spec_key_index(entries.drop_first(), k)
    }
}

/// When a key occurs, its first position is in range, carries the key, and
/// nothing before it does.
pub proof fn lemma_key_index<V>(entries: Seq<(String, V)>, k: Seq<char>)
    requires
        spec_has_key(entries, k),
    ensures
        0 <= spec_key_index(entries, k) < entries.len(),
        entries[spec_key_index(entries, k)].0@ == k,
        forall|j: int| 0 <= j < spec_key_index(entries, k) ==> entries[j].0@ != k,
    decreases entries.len(),
{
    if entries[0].0@ == k {
    } else {
        let w = choose|i: int| 0 <= i < entries.len() && entries[i].0@ == k;
        assert(entries.drop_first()[w - 1].0@ == k);
        lemma_key_index(entries.drop_first(), k);
        assert forall|j: int| 0 <= j < spec_key_index(entries, k) implies entries[j].0@ != k by {
            if j > 0 {
                assert(entries[j] == entries.drop_first()[j - 1]);
            }
        }
    }
}

/// Find the first entry carrying this key.
pub fn find_key<V>(entries: &Vec<(String, V)>, k: &String) -> (r: Option<usize>)
    ensures
        r is Some <==> spec_has_key(entries@, k@),
        r matches Some(i) ==> 0 <= i < entries@.len() && i == spec_key_index(entries@, k@),
{
    let mut i: usize = 0;
    while i < entries.len()
        invariant
            0 <= i <= entries@.len(),
            forall|j: int| 0 <= j < i ==> entries@[j].0@ != k@,
        decreases entries@.len() - i,
    {
        if entries[i].0 == *k {
            proof {
                assert(entries@[i as int].0@ == k@);
                lemma_key_index(entries@, k@);
            }
            return Some(i);
        }
        i = i + 1;
    }
    None
}

} // verus!
