//! The wire-format contract: how each tagging scheme places the discriminant
//! and the payload in a serialized node, how a node is decoded back into a
//! discriminant and a payload, and the laws that tie the two directions
//! together.

use vstd::prelude::*;

use crate::directive::TraitArgs;
use crate::errors::RuntimeError;
use crate::node::{find_key, lemma_key_index, spec_has_key, spec_key_index, Node};

verus! {

/// Whether a map holds an entry whose key is neither the tag field nor the
/// content field.
pub open spec fn spec_has_extra_key(
    entries: Seq<(String, Node)>,
    tagf: Seq<char>,
    contentf: Seq<char>,
) -> bool {
    exists|i: int|
        0 <= i < entries.len() && entries[i].0@ != tagf && entries[i].0@ != contentf
}

/// Decoding under `External`: the node must be a map with exactly one entry;
/// its key is the discriminant and its value the payload.
pub open spec fn spec_resolve_external(node: Node) -> Result<(String, Node), RuntimeError> {
    match node {
        Node::Mapping(entries) => if entries@.len() == 1 {
            Ok((entries@[0].0, entries@[0].1))
        } else {
            Err(RuntimeError::ShapeMismatch)
        },
        _ => Err(RuntimeError::ShapeMismatch),
    }
}

/// Decoding under `Internal`: the node must be a map; the field named by the
/// tag gives the discriminant, which must be a string; a missing tag field
/// falls back to the default variant where one is configured. The payload is
/// the whole map, tag field included: a factory must tolerate its presence.
pub open spec fn spec_resolve_internal(
    tagf: String,
    default_variant: Option<String>,
    node: Node,
) -> Result<(String, Node), RuntimeError> {
    match node {
        Node::Mapping(entries) => if spec_has_key(entries@, tagf@) {
            match entries@[spec_key_index(entries@, tagf@)].1 {
                Node::Text(s) => Ok((s, Node::Mapping(entries))),
                _ => Err(RuntimeError::ShapeMismatch),
            }
        } else {
            match default_variant {
                Some(d) => Ok((d, Node::Mapping(entries))),
                None => Err(RuntimeError::MissingTag),
            }
        },
        _ => Err(RuntimeError::ShapeMismatch),
    }
}

/// Decoding under `Adjacent`: the node must be a map holding the content
/// field; with `deny_unknown_fields`, no key besides the tag and content
/// fields may occur. The tag field's string value is the discriminant, with
/// the default variant substituting only when the tag field is absent; the
/// content field's value is the payload.
pub open spec fn spec_resolve_adjacent(
    tagf: String,
    contentf: String,
    default_variant: Option<String>,
    deny_unknown_fields: bool,
    node: Node,
) -> Result<(String, Node), RuntimeError> {
    match node {
        Node::Mapping(entries) => if deny_unknown_fields && spec_has_extra_key(
            entries@,
            tagf@,
            contentf@,
        ) {
            Err(RuntimeError::ShapeMismatch)
        } else if !spec_has_key(entries@, contentf@) {
            Err(RuntimeError::ShapeMismatch)
        } else {
            let payload = entries@[spec_key_index(entries@, contentf@)].1;
            if spec_has_key(entries@, tagf@) {
                match entries@[spec_key_index(entries@, tagf@)].1 {
                    Node::Text(s) => Ok((s, payload)),
                    _ => Err(RuntimeError::ShapeMismatch),
                }
            } else {
                match default_variant {
                    Some(d) => Ok((d, payload)),
                    None => Err(RuntimeError::MissingTag),
                }
            }
        },
        _ => Err(RuntimeError::ShapeMismatch),
    }
}

/// Decoding one node under a scheme: the discriminant and the payload to
/// hand to that discriminant's factory.
pub open spec fn spec_resolve(scheme: TraitArgs, node: Node) -> Result<
    (String, Node),
    RuntimeError,
> {
    match scheme {
        TraitArgs::External => spec_resolve_external(node),
        TraitArgs::Internal { tag, default_variant, .. } => spec_resolve_internal(
            tag,
            default_variant,
            node,
        ),
        TraitArgs::Adjacent { tag, content, default_variant, deny_unknown_fields } =>
            spec_resolve_adjacent(
            tag,
            content,
            default_variant,
            deny_unknown_fields,
            node,
        ),
    }
}

/// Decode a node under a scheme into the discriminant and the payload.
#[verifier::loop_isolation(false)]
pub fn resolve(scheme: &TraitArgs, node: Node) -> (r: Result<(String, Node), RuntimeError>)
    ensures
        r == spec_resolve(*scheme, node),
{
    match scheme {
        TraitArgs::External => {
            match node {
                Node::Mapping(mut entries) => {
                    if entries.len() == 1 {
                        let (k, v) = entries.remove(0);
                        Ok((k, v))
                    } else {
                        Err(RuntimeError::ShapeMismatch)
                    }
                },
                _ => Err(RuntimeError::ShapeMismatch),
            }
        },
        TraitArgs::Internal { tag, default_variant, .. } => {
            let looked: Result<String, RuntimeError> = match &node {
                Node::Mapping(entries) => {
                    match find_key(entries, tag) {
                        Some(i) => match &entries[i].1 {
                            Node::Text(s) => Ok(s.clone()),
                            _ => Err(RuntimeError::ShapeMismatch),
                        },
                        None => match default_variant {
                            Some(d) => Ok(d.clone()),
                            None => Err(RuntimeError::MissingTag),
                        },
                    }
                },
                _ => Err(RuntimeError::ShapeMismatch),
            };
            match looked {
                Ok(d) => Ok((d, node)),
                Err(e) => Err(e),
            }
        },
        TraitArgs::Adjacent { tag, content, default_variant, deny_unknown_fields } => {
            match node {
                Node::Mapping(mut entries) => {
                    if *deny_unknown_fields {
                        let mut i: usize = 0;
                        while i < entries.len()
                            invariant
                                0 <= i <= entries@.len(),
                                forall|j: int|
                                    0 <= j < i ==> !(entries@[j].0@ != tag@ && entries@[j].0@
                                        != content@),
                            decreases entries@.len() - i,
                        {
                            if !(entries[i].0 == *tag) && !(entries[i].0 == *content) {
                                proof {
                                    assert(entries@[i as int].0@ != tag@ && entries@[i as int].0@
                                        != content@);
                                    assert(spec_has_extra_key(entries@, tag@, content@));
                                }
                                return Err(RuntimeError::ShapeMismatch);
                            }
                            i = i + 1;
                        }
                    }
                    let cj = match find_key(&entries, content) {
                        Some(j) => j,
                        None => {
                            return Err(RuntimeError::ShapeMismatch);
                        },
                    };
                    let discriminant: String = match find_key(&entries, tag) {
                        Some(ti) => match &entries[ti].1 {
                            Node::Text(s) => s.clone(),
                            _ => {
                                return Err(RuntimeError::ShapeMismatch);
                            },
                        },
                        None => match default_variant {
                            Some(d) => d.clone(),
                            None => {
                                return Err(RuntimeError::MissingTag);
                            },
                        },
                    };
                    let payload = entries.remove(cj).1;
                    Ok((discriminant, payload))
                },
                _ => Err(RuntimeError::ShapeMismatch),
            }
        },
    }
}

/// The `External` wire shape for a discriminant and payload: the map with
/// that one entry.
pub open spec fn spec_wire_external(d: String, payload: Node, wire: Node) -> bool {
    wire matches Node::Mapping(e) && e@ == seq![(d, payload)]
}

/// The `Internal` wire shape, tag written: the payload map with the tag
/// field prepended.
pub open spec fn spec_wire_internal(
    tagf: String,
    d: String,
    payload_entries: Seq<(String, Node)>,
    wire: Node,
) -> bool {
    wire matches Node::Mapping(e) && e@ == seq![(tagf, Node::Text(d))] + payload_entries
}

/// The `Adjacent` wire shape: the two-entry map of tag field and content
/// field.
pub open spec fn spec_wire_adjacent(
    tagf: String,
    contentf: String,
    d: String,
    payload: Node,
    wire: Node,
) -> bool {
    wire matches Node::Mapping(e) && e@ == seq![(tagf, Node::Text(d)), (contentf, payload)]
}

/// Write a discriminant and payload as one node, in the shape the scheme
/// prescribes. Under `Internal` the payload must be a map; with the tag
/// written its entries follow the tag field, and with `dont_write_tag` the
/// payload is the node (round trips then rest on the default variant).
pub fn encode(scheme: &TraitArgs, discriminant: &String, payload: Node) -> (r: Node)
    requires
        (*scheme matches TraitArgs::Internal { write_tag: true, .. }) ==> payload is Mapping,
    ensures
        scheme is External ==> spec_wire_external(*discriminant, payload, r),
        *scheme matches TraitArgs::Internal { tag, write_tag: true, .. } ==> (payload matches
            Node::Mapping(pe) ==> spec_wire_internal(tag, *discriminant, pe@, r)),
        (*scheme matches TraitArgs::Internal { write_tag: false, .. }) ==> r == payload,
        *scheme matches TraitArgs::Adjacent { tag, content, .. } ==> spec_wire_adjacent(
            tag,
            content,
            *discriminant,
            payload,
            r,
        ),
{
    match scheme {
        TraitArgs::External => {
            let mut entries: Vec<(String, Node)> = Vec::new();
            entries.push((discriminant.clone(), payload));
            proof {
                assert(entries@ =~= seq![(*discriminant, payload)]);
            }
            Node::Mapping(entries)
        },
        TraitArgs::Internal { tag, write_tag, .. } => {
            if *write_tag {
                match payload {
                    Node::Mapping(mut pe) => {
                        let ghost pe0 = pe@;
                        let mut entries: Vec<(String, Node)> = Vec::new();
                        entries.push((tag.clone(), Node::Text(discriminant.clone())));
                        entries.append(&mut pe);
                        proof {
                            assert(entries@ =~= seq![((*tag), Node::Text(*discriminant))] + pe0);
                        }
                        Node::Mapping(entries)
                    },
                    // Dead arm: the contract demands a map payload when the
                    // tag is written into it.
                    other => {
                        proof {
                            assert(false);
                        }
                        other
                    },
                }
            } else {
                payload
            }
        },
        TraitArgs::Adjacent { tag, content, .. } => {
            let mut entries: Vec<(String, Node)> = Vec::new();
            entries.push((tag.clone(), Node::Text(discriminant.clone())));
            entries.push((content.clone(), payload));
            proof {
                assert(entries@ =~= seq![
                    ((*tag), Node::Text(*discriminant)),
                    ((*content), payload),
                ]);
            }
            Node::Mapping(entries)
        },
    }
}

/// `External` accepts exactly the single-entry maps: decoding succeeds on a
/// map with one entry and is a shape mismatch on every other node.
pub proof fn lemma_external_shape(node: Node)
    ensures
        spec_resolve(TraitArgs::External, node) is Ok <==> (node matches Node::Mapping(e)
            && e@.len() == 1),
        !(node matches Node::Mapping(e) && e@.len() == 1) ==> spec_resolve(
            TraitArgs::External,
            node,
        ) == Err::<(String, Node), RuntimeError>(RuntimeError::ShapeMismatch),
{
}

/// Under `Internal`, a compliant wire node decodes back to its discriminant,
/// with the whole map as payload — whatever the configured default variant,
/// and even if the payload itself carries a field named like the tag.
pub proof fn lemma_internal_round_trip(
    tagf: String,
    default_variant: Option<String>,
    d: String,
    payload_entries: Seq<(String, Node)>,
    wire: Node,
)
    requires
        spec_wire_internal(tagf, d, payload_entries, wire),
    ensures
        spec_resolve(
            TraitArgs::Internal { tag: tagf, default_variant, write_tag: true },
            wire,
        ) == Ok::<(String, Node), RuntimeError>((d, wire)),
{
    let e = wire->Mapping_0;
    assert(e@[0].0@ == tagf@);
    assert(spec_has_key(e@, tagf@));
    assert(spec_key_index(e@, tagf@) == 0);
}

/// Under `Internal` with `dont_write_tag`, the writer emits the payload map
/// alone; decoding recovers it exactly, with the configured default variant
/// as the discriminant, whenever the payload has no field named like the
/// tag.
pub proof fn lemma_internal_unwritten_round_trip(tagf: String, d: String, wire: Node)
    requires
        wire is Mapping,
        !spec_has_key(wire->Mapping_0@, tagf@),
    ensures
        spec_resolve(
            TraitArgs::Internal { tag: tagf, default_variant: Some(d), write_tag: false },
            wire,
        ) == Ok::<(String, Node), RuntimeError>((d, wire)),
{
}

/// Under `Adjacent` with distinct tag and content fields, a compliant wire
/// node decodes back to exactly the discriminant and payload it was written
/// from, whatever the configured default variant and even with
/// `deny_unknown_fields` set.
pub proof fn lemma_adjacent_round_trip(
    tagf: String,
    contentf: String,
    default_variant: Option<String>,
    deny_unknown_fields: bool,
    d: String,
    payload: Node,
    wire: Node,
)
    requires
        spec_wire_adjacent(tagf, contentf, d, payload, wire),
        tagf@ != contentf@,
    ensures
        spec_resolve(
            TraitArgs::Adjacent {
                tag: tagf,
                content: contentf,
                default_variant,
                deny_unknown_fields,
            },
            wire,
        ) == Ok::<(String, Node), RuntimeError>((d, payload)),
{
    let e = wire->Mapping_0;
    assert(e@[0].0@ == tagf@);
    assert(e@[1].0@ == contentf@);
    assert(!spec_has_extra_key(e@, tagf@, contentf@));
    assert(spec_has_key(e@, tagf@));
    assert(spec_has_key(e@, contentf@));
    assert(spec_key_index(e@, tagf@) == 0);
    assert(e@.drop_first()[0].0@ == contentf@);
    assert(spec_key_index(e@.drop_first(), contentf@) == 0);
    assert(spec_key_index(e@, contentf@) == 1);
}

/// Under `External`, a compliant wire node decodes back to exactly the
/// discriminant and payload it was written from.
pub proof fn lemma_external_round_trip(d: String, payload: Node, wire: Node)
    requires
        spec_wire_external(d, payload, wire),
    ensures
        spec_resolve(TraitArgs::External, wire) == Ok::<(String, Node), RuntimeError>(
            (d, payload),
        ),
{
}

/// When the tag field is structurally absent from a map decoded under
/// `Internal`, the configured default variant is substituted as the
/// discriminant, with the whole map as payload; without one, the decode is a
/// missing-tag fault.
pub proof fn lemma_internal_absent_tag_substitutes_default(
    tagf: String,
    default_variant: Option<String>,
    write_tag: bool,
    node: Node,
)
    requires
        node is Mapping,
        !spec_has_key(node->Mapping_0@, tagf@),
    ensures
        default_variant matches Some(d) ==> spec_resolve(
            TraitArgs::Internal { tag: tagf, default_variant, write_tag },
            node,
        ) == Ok::<(String, Node), RuntimeError>((d, node)),
        default_variant is None ==> spec_resolve(
            TraitArgs::Internal { tag: tagf, default_variant, write_tag },
            node,
        ) == Err::<(String, Node), RuntimeError>(RuntimeError::MissingTag),
{
}

/// The same under `Adjacent`, for a node of the shape the scheme demands
/// (content field present; no extra fields where they are denied): a
/// structurally absent tag field is covered by the configured default
/// variant, with the content field's value as payload, and is a missing-tag
/// fault without one.
pub proof fn lemma_adjacent_absent_tag_substitutes_default(
    tagf: String,
    contentf: String,
    default_variant: Option<String>,
    deny_unknown_fields: bool,
    node: Node,
)
    requires
        node is Mapping,
        !spec_has_key(node->Mapping_0@, tagf@),
        spec_has_key(node->Mapping_0@, contentf@),
        deny_unknown_fields ==> !spec_has_extra_key(node->Mapping_0@, tagf@, contentf@),
    ensures
        default_variant matches Some(d) ==> spec_resolve(
            TraitArgs::Adjacent {
                tag: tagf,
                content: contentf,
                default_variant,
                deny_unknown_fields,
            },
            node,
        ) == Ok::<(String, Node), RuntimeError>(
            (d, node->Mapping_0@[spec_key_index(node->Mapping_0@, contentf@)].1),
        ),
        default_variant is None ==> spec_resolve(
            TraitArgs::Adjacent {
                tag: tagf,
                content: contentf,
                default_variant,
                deny_unknown_fields,
            },
            node,
        ) == Err::<(String, Node), RuntimeError>(RuntimeError::MissingTag),
{
}

/// The default variant substitutes only for a structurally absent tag
/// field: when the field is present, decoding under `Internal` is the same
/// with and without a configured default.
pub proof fn lemma_internal_default_ignored_when_tag_present(
    tagf: String,
    default_variant: Option<String>,
    write_tag: bool,
    node: Node,
)
    requires
        node is Mapping,
        spec_has_key(node->Mapping_0@, tagf@),
    ensures
        spec_resolve(TraitArgs::Internal { tag: tagf, default_variant, write_tag }, node)
            == spec_resolve(
            TraitArgs::Internal { tag: tagf, default_variant: None, write_tag },
            node,
        ),
{
}

/// The same, under `Adjacent`: a present tag field decides the discriminant
/// (or a shape mismatch), whatever the configured default.
pub proof fn lemma_adjacent_default_ignored_when_tag_present(
    tagf: String,
    contentf: String,
    default_variant: Option<String>,
    deny_unknown_fields: bool,
    node: Node,
)
    requires
        node is Mapping,
        spec_has_key(node->Mapping_0@, tagf@),
    ensures
        spec_resolve(
            TraitArgs::Adjacent {
                tag: tagf,
                content: contentf,
                default_variant,
                deny_unknown_fields,
            },
            node,
        ) == spec_resolve(
            TraitArgs::Adjacent {
                tag: tagf,
                content: contentf,
                default_variant: None,
                deny_unknown_fields,
            },
            node,
        ),
{
}

} // verus!
