//! The configuration grammar: directive tokens attached to an interface
//! declaration resolve to a [`TraitArgs`] tagging scheme, and tokens attached
//! to an implementation declaration resolve to an [`ImplArgs`].
//!
//! A directive is a sequence of tokens, each a recognized key with an optional
//! string value. Keys `tag`, `content`, `default_variant` and `name` take a
//! value; `dont_write_tag` and `deny_unknown_fields` are bare flags. Tokens
//! are processed in order and the first violation aborts the parse with a
//! single fault.

use vstd::prelude::*;

use crate::errors::{BuildError, DirectiveKey};

verus! {

/// One lexed directive token: a key, with its string value where the
/// surrounding syntax gave one.
#[derive(Clone, Debug, PartialEq, Eq)]
pub struct DirectiveToken {
    pub key: DirectiveKey,
    pub value: Option<String>,
}

/// The tagging scheme an interface directive resolves to. It decides where
/// the discriminant and the payload sit in the serialized node.
#[derive(Clone, Debug, PartialEq, Eq)]
pub enum TraitArgs {
    /// The node is a map with a single entry: discriminant to payload.
    External,
    /// The discriminant sits inside the payload map, under the field named
    /// `tag`. `write_tag` tells the writer whether to emit that field.
    Internal { tag: String, default_variant: Option<String>, write_tag: bool },
    /// The discriminant and the payload sit side by side, under the fields
    /// named `tag` and `content`.
    Adjacent {
        tag: String,
        content: String,
        default_variant: Option<String>,
        deny_unknown_fields: bool,
    },
}

/// The directive attached to one implementation declaration: at most an
/// explicit discriminant.
#[derive(Clone, Debug, PartialEq, Eq)]
pub struct ImplArgs {
    pub name: Option<String>,
}

/// Which directive key an identifier names; any other identifier is
/// `Unknown`, which the parsers reject wherever it appears.
pub open spec fn spec_key_of(ident: Seq<char>) -> DirectiveKey {
    if ident == "tag"@ {
        DirectiveKey::Tag
    } else if ident == "content"@ {
        DirectiveKey::Content
    } else if ident == "default_variant"@ {
        DirectiveKey::DefaultVariant
    } else if ident == "dont_write_tag"@ {
        DirectiveKey::DontWriteTag
    } else if ident == "deny_unknown_fields"@ {
        DirectiveKey::DenyUnknownFields
    } else if ident == "name"@ {
        DirectiveKey::Name
    } else {
        DirectiveKey::Unknown
    }
}

/// Recognize a directive key by its identifier.
pub fn key_of(ident: &String) -> (r: DirectiveKey)
    ensures
        r == spec_key_of(ident@),
{
    if *ident == "tag".to_owned() {
        DirectiveKey::Tag
    } else if *ident == "content".to_owned() {
        DirectiveKey::Content
    } else if *ident == "default_variant".to_owned() {
        DirectiveKey::DefaultVariant
    } else if *ident == "dont_write_tag".to_owned() {
        DirectiveKey::DontWriteTag
    } else if *ident == "deny_unknown_fields".to_owned() {
        DirectiveKey::DenyUnknownFields
    } else if *ident == "name".to_owned() {
        DirectiveKey::Name
    } else {
        DirectiveKey::Unknown
    }
}

/// The accumulator the interface grammar threads through its tokens: the
/// value of each valued key seen so far, and whether each flag was seen.
#[derive(Clone, Debug, PartialEq, Eq)]
pub struct DirectiveState {
    pub tag: Option<String>,
    pub content: Option<String>,
    pub default_variant: Option<String>,
    pub dont_write_tag: bool,
    pub deny_unknown_fields: bool,
}

/// The state before any token.
pub open spec fn spec_initial_state() -> DirectiveState {
    DirectiveState {
        tag: None,
        content: None,
        default_variant: None,
        dont_write_tag: false,
        deny_unknown_fields: false,
    }
}

/// Whether the state already records a token with this key. `name` and
/// unrecognized keys never enter the state — no token carrying them is ever
/// folded in — so they count as seen from the start.
pub open spec fn spec_seen(st: DirectiveState, k: DirectiveKey) -> bool {
    match k {
        DirectiveKey::Tag => st.tag is Some,
        DirectiveKey::Content => st.content is Some,
        DirectiveKey::DefaultVariant => st.default_variant is Some,
        DirectiveKey::DontWriteTag => st.dont_write_tag,
        DirectiveKey::DenyUnknownFields => st.deny_unknown_fields,
        DirectiveKey::Name => true,
        DirectiveKey::Unknown => true,
    }
}

/// One step of the interface grammar: fold the next token into the state, or
/// report the first fault it raises. Keys `name` and unrecognized keys are
/// rejected here; a repeated key is rejected before its value shape is
/// looked at; `tag` and `content` name fields of the wire format, so their
/// values must be non-empty.
pub open spec fn spec_apply_token(st: DirectiveState, t: DirectiveToken) -> Result<
    DirectiveState,
    BuildError,
> {
    match t.key {
        DirectiveKey::Tag => if st.tag is Some {
            Err(BuildError::RepeatedKey(DirectiveKey::Tag))
        } else if t.value is None {
            Err(BuildError::MissingValue(DirectiveKey::Tag))
        } else if t.value.unwrap()@.len() == 0 {
            Err(BuildError::EmptyValue(DirectiveKey::Tag))
        } else {
            Ok(
                DirectiveState {
                    tag: Some(t.value.unwrap()),
                    content: st.content,
                    default_variant: st.default_variant,
                    dont_write_tag: st.dont_write_tag,
                    deny_unknown_fields: st.deny_unknown_fields,
                },
            )
        },
        DirectiveKey::Content => if st.content is Some {
            Err(BuildError::RepeatedKey(DirectiveKey::Content))
        } else if t.value is None {
            Err(BuildError::MissingValue(DirectiveKey::Content))
        } else if t.value.unwrap()@.len() == 0 {
            Err(BuildError::EmptyValue(DirectiveKey::Content))
        } else {
            Ok(
                DirectiveState {
                    tag: st.tag,
                    content: Some(t.value.unwrap()),
                    default_variant: st.default_variant,
                    dont_write_tag: st.dont_write_tag,
                    deny_unknown_fields: st.deny_unknown_fields,
                },
            )
        },
        DirectiveKey::DefaultVariant => if st.default_variant is Some {
            Err(BuildError::RepeatedKey(DirectiveKey::DefaultVariant))
        } else if t.value is None {
            Err(BuildError::MissingValue(DirectiveKey::DefaultVariant))
        } else {
            Ok(
                DirectiveState {
                    tag: st.tag,
                    content: st.content,
                    default_variant: Some(t.value.unwrap()),
                    dont_write_tag: st.dont_write_tag,
                    deny_unknown_fields: st.deny_unknown_fields,
                },
            )
        },
        DirectiveKey::DontWriteTag => if st.dont_write_tag {
            Err(BuildError::RepeatedKey(DirectiveKey::DontWriteTag))
        } else if t.value is Some {
            Err(BuildError::UnexpectedValue(DirectiveKey::DontWriteTag))
        } else {
            Ok(
                DirectiveState {
                    tag: st.tag,
                    content: st.content,
                    default_variant: st.default_variant,
                    dont_write_tag: true,
                    deny_unknown_fields: st.deny_unknown_fields,
                },
            )
        },
        DirectiveKey::DenyUnknownFields => if st.deny_unknown_fields {
            Err(BuildError::RepeatedKey(DirectiveKey::DenyUnknownFields))
        } else if t.value is Some {
            Err(BuildError::UnexpectedValue(DirectiveKey::DenyUnknownFields))
        } else {
            Ok(
                DirectiveState {
                    tag: st.tag,
                    content: st.content,
                    default_variant: st.default_variant,
                    dont_write_tag: st.dont_write_tag,
                    deny_unknown_fields: true,
                },
            )
        },
        DirectiveKey::Name => Err(BuildError::UnknownKey),
        DirectiveKey::Unknown => Err(BuildError::UnknownKey),
    }
}

/// Fold a whole token sequence into a state, stopping at the first fault.
pub open spec fn spec_fold_tokens(tokens: Seq<DirectiveToken>, st: DirectiveState) -> Result<
    DirectiveState,
    BuildError,
>
    decreases tokens.len(),
{
    if tokens.len() == 0 {
        Ok(st)
    } else {
        match spec_apply_token(st, tokens[0]) {
            Ok(st2) => spec_fold_tokens(tokens.drop_first(), st2),
            Err(e) => Err(e),
        }
    }
}

/// Resolve a completely folded state into a scheme: `tag` is mandatory,
/// `content` selects `Adjacent` over `Internal`, and each flag is only legal
/// with the scheme it belongs to.
pub open spec fn spec_resolve_state(st: DirectiveState) -> Result<TraitArgs, BuildError> {
    if st.tag is None {
        Err(BuildError::TagNotGiven)
    } else if st.content is Some {
        if st.dont_write_tag {
            Err(BuildError::DontWriteTagWithContent)
        } else {
            Ok(
                TraitArgs::Adjacent {
                    tag: st.tag.unwrap(),
                    content: st.content.unwrap(),
                    default_variant: st.default_variant,
                    deny_unknown_fields: st.deny_unknown_fields,
                },
            )
        }
    } else {
        if st.deny_unknown_fields {
            Err(BuildError::DenyUnknownFieldsWithoutContent)
        } else {
            Ok(
                TraitArgs::Internal {
                    tag: st.tag.unwrap(),
                    default_variant: st.default_variant,
                    write_tag: !st.dont_write_tag,
                },
            )
        }
    }
}

/// The whole interface grammar: an empty directive is `External`; otherwise
/// the tokens are folded in order and the final state resolved.
pub open spec fn spec_parse_trait_args(tokens: Seq<DirectiveToken>) -> Result<
    TraitArgs,
    BuildError,
> {
    if tokens.len() == 0 {
        Ok(TraitArgs::External)
    } else {
        match spec_fold_tokens(tokens, spec_initial_state()) {
            Ok(st) => spec_resolve_state(st),
            Err(e) => Err(e),
        }
    }
}

/// The implementation grammar: empty, or a single `name = "..."` token.
pub open spec fn spec_parse_impl_args(tokens: Seq<DirectiveToken>) -> Result<
    ImplArgs,
    BuildError,
> {
    if tokens.len() == 0 {
        Ok(ImplArgs { name: None })
    } else if tokens.len() > 1 {
        Err(BuildError::ExtraToken)
    } else if !(tokens[0].key is Name) {
        Err(BuildError::UnknownKey)
    } else if tokens[0].value is None {
        Err(BuildError::MissingValue(DirectiveKey::Name))
    } else {
        Ok(ImplArgs { name: Some(tokens[0].value.unwrap()) })
    }
}

/// A successful step never forgets a key: whatever was seen before the token
/// is still seen after it.
proof fn lemma_apply_token_monotone(st: DirectiveState, t: DirectiveToken, k: DirectiveKey)
    requires
        spec_seen(st, k),
        spec_apply_token(st, t) is Ok,
    ensures
        spec_seen(spec_apply_token(st, t).unwrap(), k),
{
}

/// A successful step on a token marks that token's key as seen.
proof fn lemma_apply_token_marks(st: DirectiveState, t: DirectiveToken)
    requires
        spec_apply_token(st, t) is Ok,
    ensures
        spec_seen(spec_apply_token(st, t).unwrap(), t.key),
{
}

/// A step on a key that was already seen is a fault.
proof fn lemma_apply_token_repeat(st: DirectiveState, t: DirectiveToken)
    requires
        spec_seen(st, t.key),
    ensures
        spec_apply_token(st, t) is Err,
{
}

/// A successful step on some other key does not mark `k` as seen.
proof fn lemma_apply_token_preserves_unseen(st: DirectiveState, t: DirectiveToken, k: DirectiveKey)
    requires
        !spec_seen(st, k),
        t.key != k,
        spec_apply_token(st, t) is Ok,
    ensures
        !spec_seen(spec_apply_token(st, t).unwrap(), k),
{
}

/// A successful fold keeps every key that was seen at its start.
proof fn lemma_fold_monotone(tokens: Seq<DirectiveToken>, st: DirectiveState, k: DirectiveKey)
    requires
        spec_seen(st, k),
        spec_fold_tokens(tokens, st) is Ok,
    ensures
        spec_seen(spec_fold_tokens(tokens, st).unwrap(), k),
    decreases tokens.len(),
{
    if tokens.len() > 0 {
        lemma_apply_token_monotone(st, tokens[0], k);
        lemma_fold_monotone(tokens.drop_first(), spec_apply_token(st, tokens[0]).unwrap(), k);
    }
}

/// A successful fold over tokens containing key `k` ends with `k` seen.
proof fn lemma_fold_seen_after(tokens: Seq<DirectiveToken>, st: DirectiveState, i: int)
    requires
        0 <= i < tokens.len(),
        spec_fold_tokens(tokens, st) is Ok,
    ensures
        spec_seen(spec_fold_tokens(tokens, st).unwrap(), tokens[i].key),
    decreases tokens.len(),
{
    let st2 = spec_apply_token(st, tokens[0]).unwrap();
    if i == 0 {
        lemma_apply_token_marks(st, tokens[0]);
        lemma_fold_monotone(tokens.drop_first(), st2, tokens[0].key);
    } else {
        lemma_fold_seen_after(tokens.drop_first(), st2, i - 1);
    }
}

/// A fold over tokens that avoid key `k`, from a state where `k` is unseen,
/// ends with `k` still unseen.
proof fn lemma_fold_preserves_unseen(tokens: Seq<DirectiveToken>, st: DirectiveState, k: DirectiveKey)
    requires
        !spec_seen(st, k),
        forall|i: int| 0 <= i < tokens.len() ==> tokens[i].key != k,
        spec_fold_tokens(tokens, st) is Ok,
    ensures
        !spec_seen(spec_fold_tokens(tokens, st).unwrap(), k),
    decreases tokens.len(),
{
    if tokens.len() > 0 {
        lemma_apply_token_preserves_unseen(st, tokens[0], k);
        assert(forall|i: int|
            0 <= i < tokens.drop_first().len() ==> tokens.drop_first()[i].key != k);
        lemma_fold_preserves_unseen(
            tokens.drop_first(),
            spec_apply_token(st, tokens[0]).unwrap(),
            k,
        );
    }
}

/// A fold over tokens containing a key that the start state has already seen
/// is a fault.
proof fn lemma_fold_repeat_faults(tokens: Seq<DirectiveToken>, st: DirectiveState, i: int)
    requires
        0 <= i < tokens.len(),
        spec_seen(st, tokens[i].key),
    ensures
        spec_fold_tokens(tokens, st) is Err,
    decreases tokens.len(),
{
    match spec_apply_token(st, tokens[0]) {
        Err(_) => {},
        Ok(st2) => {
            if i == 0 {
                lemma_apply_token_repeat(st, tokens[0]);
            } else {
                lemma_apply_token_monotone(st, tokens[0], tokens[i].key);
                lemma_fold_repeat_faults(tokens.drop_first(), st2, i - 1);
            }
        },
    }
}

/// A fold started from a state whose field names are non-empty keeps them
/// so: the step function never stores an empty `tag` or `content`.
proof fn lemma_fold_non_empty(tokens: Seq<DirectiveToken>, st: DirectiveState)
    requires
        st.tag matches Some(t) ==> t@.len() > 0,
        st.content matches Some(c) ==> c@.len() > 0,
        spec_fold_tokens(tokens, st) is Ok,
    ensures
        spec_fold_tokens(tokens, st).unwrap().tag matches Some(t) ==> t@.len() > 0,
        spec_fold_tokens(tokens, st).unwrap().content matches Some(c) ==> c@.len() > 0,
    decreases tokens.len(),
{
    if tokens.len() > 0 {
        lemma_fold_non_empty(tokens.drop_first(), spec_apply_token(st, tokens[0]).unwrap());
    }
}

/// The scheme invariant: whatever the directive, an accepted scheme never
/// carries an empty tag or content field name.
pub proof fn lemma_scheme_field_names_non_empty(tokens: Seq<DirectiveToken>)
    requires
        spec_parse_trait_args(tokens) is Ok,
    ensures
        spec_scheme_tag(spec_parse_trait_args(tokens).unwrap()) matches Some(t) ==> t@.len() > 0,
        spec_scheme_content(spec_parse_trait_args(tokens).unwrap()) matches Some(c) ==> c@.len()
            > 0,
{
    if tokens.len() > 0 {
        lemma_fold_non_empty(tokens, spec_initial_state());
    }
}

/// Whether a token pairs a recognized interface key with the value shape it
/// demands: the valued keys carry a value — non-empty for the field-naming
/// keys `tag` and `content` — and the flags none.
pub open spec fn spec_token_shape_ok(t: DirectiveToken) -> bool {
    match t.key {
        DirectiveKey::Tag => t.value is Some && t.value.unwrap()@.len() > 0,
        DirectiveKey::Content => t.value is Some && t.value.unwrap()@.len() > 0,
        DirectiveKey::DefaultVariant => t.value is Some,
        DirectiveKey::DontWriteTag => t.value is None,
        DirectiveKey::DenyUnknownFields => t.value is None,
        DirectiveKey::Name => false,
        DirectiveKey::Unknown => false,
    }
}

/// Whether some token carries this key.
pub open spec fn spec_has_token(tokens: Seq<DirectiveToken>, k: DirectiveKey) -> bool {
    exists|i: int| 0 <= i < tokens.len() && tokens[i].key == k
}

/// Folding well-shaped tokens with pairwise distinct keys, none of them
/// already seen, always succeeds, and the final state holds each key's value
/// exactly where its token put it.
proof fn lemma_fold_well_formed(tokens: Seq<DirectiveToken>, st: DirectiveState)
    requires
        forall|i: int| 0 <= i < tokens.len() ==> spec_token_shape_ok(tokens[i]),
        forall|i: int, j: int| 0 <= i < j < tokens.len() ==> tokens[i].key != tokens[j].key,
        forall|i: int| 0 <= i < tokens.len() ==> !spec_seen(st, tokens[i].key),
    ensures
        spec_fold_tokens(tokens, st) is Ok,
        ({
            let st2 = spec_fold_tokens(tokens, st).unwrap();
            &&& (forall|i: int|
                0 <= i < tokens.len() && tokens[i].key == DirectiveKey::Tag ==> st2.tag
                    == tokens[i].value)
            &&& (!spec_has_token(tokens, DirectiveKey::Tag) ==> st2.tag == st.tag)
            &&& (forall|i: int|
                0 <= i < tokens.len() && tokens[i].key == DirectiveKey::Content ==> st2.content
                    == tokens[i].value)
            &&& (!spec_has_token(tokens, DirectiveKey::Content) ==> st2.content == st.content)
            &&& (forall|i: int|
                0 <= i < tokens.len() && tokens[i].key == DirectiveKey::DefaultVariant
                    ==> st2.default_variant == tokens[i].value)
            &&& (!spec_has_token(tokens, DirectiveKey::DefaultVariant) ==> st2.default_variant
                == st.default_variant)
            &&& st2.dont_write_tag == (st.dont_write_tag || spec_has_token(
                tokens,
                DirectiveKey::DontWriteTag,
            ))
            &&& st2.deny_unknown_fields == (st.deny_unknown_fields || spec_has_token(
                tokens,
                DirectiveKey::DenyUnknownFields,
            ))
        }),
    decreases tokens.len(),
{
    if tokens.len() > 0 {
        let t0 = tokens[0];
        assert(spec_token_shape_ok(t0));
        assert(!spec_seen(st, t0.key));
        let st1 = spec_apply_token(st, t0).unwrap();
        assert forall|i: int| 0 <= i < tokens.drop_first().len() implies !spec_seen(
            st1,
            tokens.drop_first()[i].key,
        ) by {
            assert(tokens.drop_first()[i] == tokens[i + 1]);
            lemma_apply_token_preserves_unseen(st, t0, tokens[i + 1].key);
        }
        lemma_fold_well_formed(tokens.drop_first(), st1);
        assert forall|k: DirectiveKey| spec_has_token(tokens, k) implies (k == t0.key
            || spec_has_token(tokens.drop_first(), k)) by {
            let w = choose|i: int| 0 <= i < tokens.len() && tokens[i].key == k;
            if w > 0 {
                assert(tokens.drop_first()[w - 1].key == k);
            }
        }
        assert forall|k: DirectiveKey| spec_has_token(tokens.drop_first(), k) implies
            spec_has_token(tokens, k) by {
            let w = choose|i: int|
                0 <= i < tokens.drop_first().len() && tokens.drop_first()[i].key == k;
            assert(tokens[w + 1].key == k);
        }
        assert forall|i: int| 0 < i < tokens.len() implies tokens.drop_first()[i - 1]
            == tokens[i] by {}
    }
}

/// A directive whose tokens are well shaped, pairwise distinct, and
/// compatible — `tag` given, `dont_write_tag` only without `content`,
/// `deny_unknown_fields` only with it — is accepted, in any token order,
/// and each option of the resulting scheme comes from its own token.
pub proof fn lemma_well_formed_directive_accepted(tokens: Seq<DirectiveToken>)
    requires
        tokens.len() > 0,
        forall|i: int| 0 <= i < tokens.len() ==> spec_token_shape_ok(tokens[i]),
        forall|i: int, j: int| 0 <= i < j < tokens.len() ==> tokens[i].key != tokens[j].key,
        spec_has_token(tokens, DirectiveKey::Tag),
        spec_has_token(tokens, DirectiveKey::Content) ==> !spec_has_token(
            tokens,
            DirectiveKey::DontWriteTag,
        ),
        !spec_has_token(tokens, DirectiveKey::Content) ==> !spec_has_token(
            tokens,
            DirectiveKey::DenyUnknownFields,
        ),
    ensures
        spec_parse_trait_args(tokens) is Ok,
        ({
            let scheme = spec_parse_trait_args(tokens).unwrap();
            &&& (spec_has_token(tokens, DirectiveKey::Content) ==> scheme is Adjacent)
            &&& (!spec_has_token(tokens, DirectiveKey::Content) ==> scheme is Internal)
            &&& (forall|i: int|
                0 <= i < tokens.len() && tokens[i].key == DirectiveKey::Tag ==> spec_scheme_tag(
                    scheme,
                ) == tokens[i].value)
            &&& (forall|i: int|
                0 <= i < tokens.len() && tokens[i].key == DirectiveKey::Content
                    ==> spec_scheme_content(scheme) == tokens[i].value)
            &&& (forall|i: int|
                0 <= i < tokens.len() && tokens[i].key == DirectiveKey::DefaultVariant
                    ==> spec_scheme_default_variant(scheme) == tokens[i].value)
            &&& (!spec_has_token(tokens, DirectiveKey::DefaultVariant)
                ==> spec_scheme_default_variant(scheme) is None)
            &&& spec_scheme_deny_unknown_fields(scheme) == spec_has_token(
                tokens,
                DirectiveKey::DenyUnknownFields,
            )
            &&& spec_scheme_write_tag(scheme) == !spec_has_token(
                tokens,
                DirectiveKey::DontWriteTag,
            )
        }),
{
    lemma_fold_well_formed(tokens, spec_initial_state());
}

/// The tag field name of a scheme that carries one; `External` carries none.
pub open spec fn spec_scheme_tag(scheme: TraitArgs) -> Option<String> {
    match scheme {
        TraitArgs::External => None,
        TraitArgs::Internal { tag, .. } => Some(tag),
        TraitArgs::Adjacent { tag, .. } => Some(tag),
    }
}

/// The content field name of a scheme; only `Adjacent` has one.
pub open spec fn spec_scheme_content(scheme: TraitArgs) -> Option<String> {
    match scheme {
        TraitArgs::Adjacent { content, .. } => Some(content),
        _ => None,
    }
}

/// The default variant a scheme substitutes for a missing tag field.
pub open spec fn spec_scheme_default_variant(scheme: TraitArgs) -> Option<String> {
    match scheme {
        TraitArgs::External => None,
        TraitArgs::Internal { default_variant, .. } => default_variant,
        TraitArgs::Adjacent { default_variant, .. } => default_variant,
    }
}

/// Whether a scheme rejects fields beyond tag and content; meaningful only
/// for `Adjacent`.
pub open spec fn spec_scheme_deny_unknown_fields(scheme: TraitArgs) -> bool {
    match scheme {
        TraitArgs::Adjacent { deny_unknown_fields, .. } => deny_unknown_fields,
        _ => false,
    }
}

/// The tag-writing policy a scheme implies: only `Internal` can switch the
/// tag field off.
pub open spec fn spec_scheme_write_tag(scheme: TraitArgs) -> bool {
    match scheme {
        TraitArgs::Internal { write_tag, .. } => write_tag,
        _ => true,
    }
}

/// A directive that gives any key twice is rejected.
pub proof fn lemma_repeated_key_rejected(tokens: Seq<DirectiveToken>, i: int, j: int)
    requires
        0 <= i < j < tokens.len(),
        tokens[i].key == tokens[j].key,
    ensures
        spec_parse_trait_args(tokens) is Err,
    decreases tokens.len(),
{
    match spec_apply_token(spec_initial_state(), tokens[0]) {
        Err(_) => {},
        Ok(st2) => {
            if i == 0 {
                lemma_apply_token_marks(spec_initial_state(), tokens[0]);
                lemma_fold_repeat_faults(tokens.drop_first(), st2, j - 1);
            } else {
                lemma_fold_repeat_faults_from(tokens.drop_first(), st2, i - 1, j - 1);
            }
        },
    }
}

/// A fold over tokens holding the same key at two positions is a fault.
proof fn lemma_fold_repeat_faults_from(
    tokens: Seq<DirectiveToken>,
    st: DirectiveState,
    i: int,
    j: int,
)
    requires
        0 <= i < j < tokens.len(),
        tokens[i].key == tokens[j].key,
    ensures
        spec_fold_tokens(tokens, st) is Err,
    decreases tokens.len(),
{
    match spec_apply_token(st, tokens[0]) {
        Err(_) => {},
        Ok(st2) => {
            if i == 0 {
                lemma_apply_token_marks(st, tokens[0]);
                lemma_fold_repeat_faults(tokens.drop_first(), st2, j - 1);
            } else {
                lemma_fold_repeat_faults_from(tokens.drop_first(), st2, i - 1, j - 1);
            }
        },
    }
}

/// A directive that gives both `content` and `dont_write_tag` is rejected:
/// once the payload is separated out, the tag field cannot be optional.
pub proof fn lemma_dont_write_tag_with_content_rejected(
    tokens: Seq<DirectiveToken>,
    i: int,
    j: int,
)
    requires
        0 <= i < tokens.len(),
        0 <= j < tokens.len(),
        tokens[i].key == DirectiveKey::Content,
        tokens[j].key == DirectiveKey::DontWriteTag,
    ensures
        spec_parse_trait_args(tokens) is Err,
{
    if spec_fold_tokens(tokens, spec_initial_state()) is Ok {
        lemma_fold_seen_after(tokens, spec_initial_state(), i);
        lemma_fold_seen_after(tokens, spec_initial_state(), j);
    }
}

/// A directive that gives `deny_unknown_fields` but no `content` is
/// rejected: the option is undefined without a separated payload field.
pub proof fn lemma_deny_unknown_fields_without_content_rejected(
    tokens: Seq<DirectiveToken>,
    j: int,
)
    requires
        0 <= j < tokens.len(),
        tokens[j].key == DirectiveKey::DenyUnknownFields,
        forall|i: int| 0 <= i < tokens.len() ==> tokens[i].key != DirectiveKey::Content,
    ensures
        spec_parse_trait_args(tokens) is Err,
{
    if spec_fold_tokens(tokens, spec_initial_state()) is Ok {
        lemma_fold_seen_after(tokens, spec_initial_state(), j);
        lemma_fold_preserves_unseen(tokens, spec_initial_state(), DirectiveKey::Content);
    }
}

/// Fold one token into the state, or report the fault it raises.
fn apply_token(st: DirectiveState, t: &DirectiveToken) -> (r: Result<DirectiveState, BuildError>)
    ensures
        r == spec_apply_token(st, *t),
{
    match t.key {
        DirectiveKey::Tag => {
            if st.tag.is_some() {
                Err(BuildError::RepeatedKey(DirectiveKey::Tag))
            } else {
                match &t.value {
                    None => Err(BuildError::MissingValue(DirectiveKey::Tag)),
                    Some(v) if v.as_str().is_empty() => Err(
                        BuildError::EmptyValue(DirectiveKey::Tag),
                    ),
                    Some(v) => Ok(
                        DirectiveState {
                            tag: Some(v.clone()),
                            content: st.content,
                            default_variant: st.default_variant,
                            dont_write_tag: st.dont_write_tag,
                            deny_unknown_fields: st.deny_unknown_fields,
                        },
                    ),
                }
            }
        },
        DirectiveKey::Content => {
            if st.content.is_some() {
                Err(BuildError::RepeatedKey(DirectiveKey::Content))
            } else {
                match &t.value {
                    None => Err(BuildError::MissingValue(DirectiveKey::Content)),
                    Some(v) if v.as_str().is_empty() => Err(
                        BuildError::EmptyValue(DirectiveKey::Content),
                    ),
                    Some(v) => Ok(
                        DirectiveState {
                            tag: st.tag,
                            content: Some(v.clone()),
                            default_variant: st.default_variant,
                            dont_write_tag: st.dont_write_tag,
                            deny_unknown_fields: st.deny_unknown_fields,
                        },
                    ),
                }
            }
        },
        DirectiveKey::DefaultVariant => {
            if st.default_variant.is_some() {
                Err(BuildError::RepeatedKey(DirectiveKey::DefaultVariant))
            } else {
                match &t.value {
                    None => Err(BuildError::MissingValue(DirectiveKey::DefaultVariant)),
                    Some(v) => Ok(
                        DirectiveState {
                            tag: st.tag,
                            content: st.content,
                            default_variant: Some(v.clone()),
                            dont_write_tag: st.dont_write_tag,
                            deny_unknown_fields: st.deny_unknown_fields,
                        },
                    ),
                }
            }
        },
        DirectiveKey::DontWriteTag => {
            if st.dont_write_tag {
                Err(BuildError::RepeatedKey(DirectiveKey::DontWriteTag))
            } else if t.value.is_some() {
                Err(BuildError::UnexpectedValue(DirectiveKey::DontWriteTag))
            } else {
                Ok(
                    DirectiveState {
                        tag: st.tag,
                        content: st.content,
                        default_variant: st.default_variant,
                        dont_write_tag: true,
                        deny_unknown_fields: st.deny_unknown_fields,
                    },
                )
            }
        },
        DirectiveKey::DenyUnknownFields => {
            if st.deny_unknown_fields {
                Err(BuildError::RepeatedKey(DirectiveKey::DenyUnknownFields))
            } else if t.value.is_some() {
                Err(BuildError::UnexpectedValue(DirectiveKey::DenyUnknownFields))
            } else {
                Ok(
                    DirectiveState {
                        tag: st.tag,
                        content: st.content,
                        default_variant: st.default_variant,
                        dont_write_tag: st.dont_write_tag,
                        deny_unknown_fields: true,
                    },
                )
            }
        },
        DirectiveKey::Name => Err(BuildError::UnknownKey),
        DirectiveKey::Unknown => Err(BuildError::UnknownKey),
    }
}

impl TraitArgs {
    /// Parse the directive tokens attached to an interface declaration into
    /// a tagging scheme, or report the first fault.
    pub fn parse(tokens: &Vec<DirectiveToken>) -> (r: Result<TraitArgs, BuildError>)
        ensures
            r == spec_parse_trait_args(tokens@),
    {
        if tokens.len() == 0 {
            return Ok(TraitArgs::External);
        }
        let mut st = DirectiveState {
            tag: None,
            content: None,
            default_variant: None,
            dont_write_tag: false,
            deny_unknown_fields: false,
        };
        let mut i: usize = 0;
        proof {
            assert(tokens@.skip(0) =~= tokens@);
            assert(st == spec_initial_state());
        }
        while i < tokens.len()
            invariant
                0 <= i <= tokens@.len(),
                spec_fold_tokens(tokens@, spec_initial_state()) == spec_fold_tokens(
                    tokens@.skip(i as int),
                    st,
                ),
            decreases tokens@.len() - i,
        {
            proof {
                assert(tokens@.skip(i as int)[0] == tokens@[i as int]);
                assert(tokens@.skip(i as int).drop_first() =~= tokens@.skip(i as int + 1));
            }
            st = match apply_token(st, &tokens[i]) {
                Ok(st2) => st2,
                Err(e) => {
                    return Err(e);
                },
            };
            i = i + 1;
        }
        proof {
            assert(tokens@.skip(i as int) =~= Seq::<DirectiveToken>::empty());
        }
        match st.tag {
            None => Err(BuildError::TagNotGiven),
            Some(tag) => {
                match st.content {
                    Some(content) => {
                        if st.dont_write_tag {
                            Err(BuildError::DontWriteTagWithContent)
                        } else {
                            Ok(
                                TraitArgs::Adjacent {
                                    tag,
                                    content,
                                    default_variant: st.default_variant,
                                    deny_unknown_fields: st.deny_unknown_fields,
                                },
                            )
                        }
                    },
                    None => {
                        if st.deny_unknown_fields {
                            Err(BuildError::DenyUnknownFieldsWithoutContent)
                        } else {
                            Ok(
                                TraitArgs::Internal {
                                    tag,
                                    default_variant: st.default_variant,
                                    write_tag: !st.dont_write_tag,
                                },
                            )
                        }
                    },
                }
            },
        }
    }
}

impl ImplArgs {
    /// Parse the directive tokens attached to an implementation declaration:
    /// empty, or a single `name = "..."`.
    pub fn parse(tokens: &Vec<DirectiveToken>) -> (r: Result<ImplArgs, BuildError>)
        ensures
            r == spec_parse_impl_args(tokens@),
    {
        if tokens.len() == 0 {
            Ok(ImplArgs { name: None })
        } else if tokens.len() > 1 {
            Err(BuildError::ExtraToken)
        } else {
            let t = &tokens[0];
            match t.key {
                DirectiveKey::Name => {
                    match &t.value {
                        None => Err(BuildError::MissingValue(DirectiveKey::Name)),
                        Some(v) => Ok(ImplArgs { name: Some(v.clone()) }),
                    }
                },
                _ => Err(BuildError::UnknownKey),
            }
        }
    }
}

} // verus!
