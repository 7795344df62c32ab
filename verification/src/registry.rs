//! The per-interface registry: a read-only mapping from discriminant to
//! factory, assembled once from the contributions of every deserializing
//! implementation, and the dispatch step that decodes a node and hands its
//! payload to the registered factory.
//!
//! The factory type is left generic: to this library a factory is whatever
//! the capability-erasure layer supplies; dispatch only picks the right one.

use vstd::prelude::*;

use crate::directive::TraitArgs;
use crate::errors::RuntimeError;
use crate::node::{find_key, lemma_key_index, spec_has_key, spec_key_index, Node};
use crate::wire::{resolve, spec_resolve};

verus! {

/// Whether no two entries share a discriminant.
pub open spec fn spec_distinct_tags<F>(entries: Seq<(String, F)>) -> bool {
    forall|i: int, j: int|
        0 <= i < j < entries.len() ==> entries[i].0@ != entries[j].0@
}

/// With no duplicate discriminants, the factory found under a contribution's
/// discriminant is that contribution's own: a successful build never lets
/// one implementation's factory answer for another's.
pub proof fn lemma_registered_factory<F>(entries: Seq<(String, F)>, i: int)
    requires
        spec_distinct_tags(entries),
        0 <= i < entries.len(),
    ensures
        spec_has_key(entries, entries[i].0@),
        entries[spec_key_index(entries, entries[i].0@)].1 == entries[i].1,
{
    lemma_key_index(entries, entries[i].0@);
}

/// The registry of one interface: its identity and, for each registered
/// discriminant, the factory that reconstructs that concrete type. Built
/// exactly once from all contributions; read-only afterwards.
#[derive(Debug)]
pub struct Registry<F> {
    interface: String,
    entries: Vec<(String, F)>,
}

impl<F> Registry<F> {
    /// The interface this registry serves.
    pub closed spec fn spec_interface(&self) -> Seq<char> {
        self.interface@
    }

    /// The registered entries, in contribution order.
    pub closed spec fn spec_entries(&self) -> Seq<(String, F)> {
        self.entries@
    }

    /// A well-formed registry holds no duplicate discriminant.
    pub open spec fn wf(&self) -> bool {
        spec_distinct_tags(self.spec_entries())
    }

    /// Whether a discriminant is registered.
    pub open spec fn spec_has_tag(&self, t: Seq<char>) -> bool {
        spec_has_key(self.spec_entries(), t)
    }

    /// The factory registered for a discriminant; meaningful only when one
    /// is registered.
    pub open spec fn spec_factory_for(&self, t: Seq<char>) -> F {
        self.spec_entries()[spec_key_index(self.spec_entries(), t)].1
    }

    /// Assemble the registry of one interface from all contributions linked
    /// into the program. Two contributions sharing a discriminant fail fast
    /// here, before any lookup can run.
    pub fn build(interface: String, contributions: Vec<(String, F)>) -> (r: Result<
        Registry<F>,
        RuntimeError,
    >)
        ensures
            r is Ok <==> spec_distinct_tags(contributions@),
            r matches Ok(reg) ==> reg.wf() && reg.spec_entries() == contributions@
                && reg.spec_interface() == interface@,
            r matches Err(e) ==> (e matches RuntimeError::DuplicateTag(t) && exists|i: int, j: int|
                0 <= i < j < contributions@.len() && contributions@[i].0@ == t@
                    && contributions@[j].0@ == t@),
    {
        let mut j: usize = 1;
        while j < contributions.len()
            invariant
                1 <= j,
                forall|a: int, b: int|
                    0 <= a < b < j && b < contributions@.len() ==> contributions@[a].0@
                        != contributions@[b].0@,
            decreases contributions@.len() - j,
        {
            let mut i: usize = 0;
            while i < j
                invariant
                    0 <= i <= j < contributions@.len(),
                    forall|a: int, b: int|
                        0 <= a < b < j ==> contributions@[a].0@ != contributions@[b].0@,
                    forall|a: int| 0 <= a < i ==> contributions@[a].0@ != contributions@[j as int].0@,
                decreases j - i,
            {
                if contributions[i].0 == contributions[j].0 {
                    return Err(RuntimeError::DuplicateTag(contributions[j].0.clone()));
                }
                i = i + 1;
            }
            j = j + 1;
        }
        Ok(Registry { interface, entries: contributions })
    }

    /// Look up the factory registered for a discriminant.
    pub fn lookup(&self, tag: &String) -> (r: Option<&F>)
        ensures
            r is Some <==> self.spec_has_tag(tag@),
            r matches Some(f) ==> *f == self.spec_factory_for(tag@),
    {
        match find_key(&self.entries, tag) {
            Some(i) => Some(&self.entries[i].1),
            None => None,
        }
    }

    /// Decode a node under the interface's scheme and pick the factory its
    /// discriminant is registered under. Decoding faults pass through; a
    /// well-shaped node whose discriminant is not registered is an unknown
    /// variant, never a default substitution.
    pub fn dispatch(&self, scheme: &TraitArgs, node: Node) -> (r: Result<(&F, Node), RuntimeError>)
        ensures
            spec_resolve(*scheme, node) matches Err(e) ==> (r matches Err(e2) && e2 == e),
            spec_resolve(*scheme, node) matches Ok(tp) ==> (self.spec_has_tag(tp.0@)
                ==> (r matches Ok(fp) && *fp.0 == self.spec_factory_for(tp.0@) && fp.1 == tp.1)),
            spec_resolve(*scheme, node) matches Ok(tp) ==> (!self.spec_has_tag(tp.0@)
                ==> (r matches Err(e) && e matches RuntimeError::UnknownVariant {
                tag,
                interface,
            } && tag@ == tp.0@ && interface@ == self.spec_interface())),
    {
        match resolve(scheme, node) {
            Err(e) => Err(e),
            Ok((d, payload)) => {
                match find_key(&self.entries, &d) {
                    Some(i) => Ok((&self.entries[i].1, payload)),
                    None => Err(
                        RuntimeError::UnknownVariant {
                            tag: d,
                            interface: self.interface.clone(),
                        },
                    ),
                }
            },
        }
    }
}

} // verus!
