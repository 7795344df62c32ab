use tagged_dispatch::directive::{key_of, DirectiveToken, ImplArgs, TraitArgs};
use tagged_dispatch::errors::{BuildError, DirectiveKey, ErrorCategory};

fn valued(key: DirectiveKey, value: &str) -> DirectiveToken {
    DirectiveToken { key, value: Some(value.to_string()) }
}

fn flag(key: DirectiveKey) -> DirectiveToken {
    DirectiveToken { key, value: None }
}

#[test]
fn empty_directive_is_external() {
    let r = TraitArgs::parse(&vec![]);
    assert_eq!(r, Ok(TraitArgs::External));
}

#[test]
fn tag_alone_is_internal_with_written_tag() {
    let r = TraitArgs::parse(&vec![valued(DirectiveKey::Tag, "type")]);
    assert_eq!(
        r,
        Ok(TraitArgs::Internal {
            tag: "type".to_string(),
            default_variant: None,
            write_tag: true,
        })
    );
}

#[test]
fn tag_with_default_variant() {
    let r = TraitArgs::parse(&vec![
        valued(DirectiveKey::Tag, "type"),
        valued(DirectiveKey::DefaultVariant, "Circle"),
    ]);
    assert_eq!(
        r,
        Ok(TraitArgs::Internal {
            tag: "type".to_string(),
            default_variant: Some("Circle".to_string()),
            write_tag: true,
        })
    );
}

#[test]
fn dont_write_tag_switches_the_writer_off() {
    let r = TraitArgs::parse(&vec![
        valued(DirectiveKey::Tag, "type"),
        flag(DirectiveKey::DontWriteTag),
    ]);
    assert_eq!(
        r,
        Ok(TraitArgs::Internal {
            tag: "type".to_string(),
            default_variant: None,
            write_tag: false,
        })
    );
}

#[test]
fn tag_and_content_are_adjacent() {
    let r = TraitArgs::parse(&vec![
        valued(DirectiveKey::Tag, "t"),
        valued(DirectiveKey::Content, "c"),
    ]);
    assert_eq!(
        r,
        Ok(TraitArgs::Adjacent {
            tag: "t".to_string(),
            content: "c".to_string(),
            default_variant: None,
            deny_unknown_fields: false,
        })
    );
}

#[test]
fn adjacent_with_deny_unknown_fields_and_default() {
    let r = TraitArgs::parse(&vec![
        valued(DirectiveKey::Tag, "t"),
        valued(DirectiveKey::Content, "c"),
        flag(DirectiveKey::DenyUnknownFields),
        valued(DirectiveKey::DefaultVariant, "Sq"),
    ]);
    assert_eq!(
        r,
        Ok(TraitArgs::Adjacent {
            tag: "t".to_string(),
            content: "c".to_string(),
            default_variant: Some("Sq".to_string()),
            deny_unknown_fields: true,
        })
    );
}

#[test]
fn token_order_does_not_matter_for_a_legal_directive() {
    let r = TraitArgs::parse(&vec![
        valued(DirectiveKey::Content, "c"),
        valued(DirectiveKey::Tag, "t"),
    ]);
    assert_eq!(
        r,
        Ok(TraitArgs::Adjacent {
            tag: "t".to_string(),
            content: "c".to_string(),
            default_variant: None,
            deny_unknown_fields: false,
        })
    );
}

#[test]
fn repeated_key_is_rejected() {
    let r = TraitArgs::parse(&vec![
        valued(DirectiveKey::Tag, "a"),
        valued(DirectiveKey::Tag, "b"),
    ]);
    assert_eq!(r, Err(BuildError::RepeatedKey(DirectiveKey::Tag)));
}

#[test]
fn repeated_flag_is_rejected() {
    let r = TraitArgs::parse(&vec![
        valued(DirectiveKey::Tag, "t"),
        flag(DirectiveKey::DontWriteTag),
        flag(DirectiveKey::DontWriteTag),
    ]);
    assert_eq!(r, Err(BuildError::RepeatedKey(DirectiveKey::DontWriteTag)));
}

#[test]
fn unknown_key_is_rejected() {
    let r = TraitArgs::parse(&vec![flag(DirectiveKey::Unknown)]);
    assert_eq!(r, Err(BuildError::UnknownKey));
}

#[test]
fn name_is_not_an_interface_key() {
    let r = TraitArgs::parse(&vec![valued(DirectiveKey::Name, "X")]);
    assert_eq!(r, Err(BuildError::UnknownKey));
}

#[test]
fn valued_key_without_value_is_rejected() {
    let r = TraitArgs::parse(&vec![flag(DirectiveKey::Tag)]);
    assert_eq!(r, Err(BuildError::MissingValue(DirectiveKey::Tag)));
}

#[test]
fn flag_with_value_is_rejected() {
    let r = TraitArgs::parse(&vec![
        valued(DirectiveKey::Tag, "t"),
        valued(DirectiveKey::DenyUnknownFields, "yes"),
    ]);
    assert_eq!(r, Err(BuildError::UnexpectedValue(DirectiveKey::DenyUnknownFields)));
}

#[test]
fn empty_tag_is_rejected() {
    let r = TraitArgs::parse(&vec![valued(DirectiveKey::Tag, "")]);
    assert_eq!(r, Err(BuildError::EmptyValue(DirectiveKey::Tag)));
}

#[test]
fn empty_content_is_rejected() {
    let r = TraitArgs::parse(&vec![
        valued(DirectiveKey::Tag, "t"),
        valued(DirectiveKey::Content, ""),
    ]);
    assert_eq!(r, Err(BuildError::EmptyValue(DirectiveKey::Content)));
}

#[test]
fn directive_keys_are_recognized_by_identifier() {
    assert_eq!(key_of(&"tag".to_string()), DirectiveKey::Tag);
    assert_eq!(key_of(&"content".to_string()), DirectiveKey::Content);
    assert_eq!(key_of(&"default_variant".to_string()), DirectiveKey::DefaultVariant);
    assert_eq!(key_of(&"dont_write_tag".to_string()), DirectiveKey::DontWriteTag);
    assert_eq!(key_of(&"deny_unknown_fields".to_string()), DirectiveKey::DenyUnknownFields);
    assert_eq!(key_of(&"name".to_string()), DirectiveKey::Name);
    assert_eq!(key_of(&"flavour".to_string()), DirectiveKey::Unknown);
    assert_eq!(key_of(&"Tag".to_string()), DirectiveKey::Unknown);
    assert_eq!(key_of(&"".to_string()), DirectiveKey::Unknown);
}

#[test]
fn content_without_tag_is_rejected() {
    let r = TraitArgs::parse(&vec![valued(DirectiveKey::Content, "c")]);
    assert_eq!(r, Err(BuildError::TagNotGiven));
}

#[test]
fn dont_write_tag_with_content_is_rejected() {
    let r = TraitArgs::parse(&vec![
        valued(DirectiveKey::Tag, "t"),
        valued(DirectiveKey::Content, "c"),
        flag(DirectiveKey::DontWriteTag),
    ]);
    assert_eq!(r, Err(BuildError::DontWriteTagWithContent));
}

#[test]
fn deny_unknown_fields_without_content_is_rejected() {
    let r = TraitArgs::parse(&vec![
        valued(DirectiveKey::Tag, "t"),
        flag(DirectiveKey::DenyUnknownFields),
    ]);
    assert_eq!(r, Err(BuildError::DenyUnknownFieldsWithoutContent));
}

#[test]
fn first_violation_wins() {
    // The repeated key stands before the conflicting flag, so it is the one
    // fault reported.
    let r = TraitArgs::parse(&vec![
        valued(DirectiveKey::Tag, "t"),
        valued(DirectiveKey::Tag, "u"),
        valued(DirectiveKey::Content, "c"),
        flag(DirectiveKey::DontWriteTag),
    ]);
    assert_eq!(r, Err(BuildError::RepeatedKey(DirectiveKey::Tag)));
}

#[test]
fn impl_directive_empty_has_no_name() {
    let r = ImplArgs::parse(&vec![]);
    assert_eq!(r, Ok(ImplArgs { name: None }));
}

#[test]
fn impl_directive_with_name() {
    let r = ImplArgs::parse(&vec![valued(DirectiveKey::Name, "Rect")]);
    assert_eq!(r, Ok(ImplArgs { name: Some("Rect".to_string()) }));
}

#[test]
fn impl_directive_rejects_other_keys() {
    let r = ImplArgs::parse(&vec![valued(DirectiveKey::Tag, "t")]);
    assert_eq!(r, Err(BuildError::UnknownKey));
}

#[test]
fn impl_directive_rejects_extra_tokens() {
    let r = ImplArgs::parse(&vec![
        valued(DirectiveKey::Name, "A"),
        valued(DirectiveKey::Name, "B"),
    ]);
    assert_eq!(r, Err(BuildError::ExtraToken));
}

#[test]
fn impl_directive_name_needs_a_value() {
    let r = ImplArgs::parse(&vec![flag(DirectiveKey::Name)]);
    assert_eq!(r, Err(BuildError::MissingValue(DirectiveKey::Name)));
}

#[test]
fn error_categories() {
    assert_eq!(BuildError::UnknownKey.category(), ErrorCategory::Grammar);
    assert_eq!(
        BuildError::RepeatedKey(DirectiveKey::Tag).category(),
        ErrorCategory::Grammar
    );
    assert_eq!(
        BuildError::EmptyValue(DirectiveKey::Tag).category(),
        ErrorCategory::Grammar
    );
    assert_eq!(BuildError::TagNotGiven.category(), ErrorCategory::ConfigConflict);
    assert_eq!(
        BuildError::DontWriteTagWithContent.category(),
        ErrorCategory::ConfigConflict
    );
    assert_eq!(
        BuildError::DenyUnknownFieldsWithoutContent.category(),
        ErrorCategory::ConfigConflict
    );
    assert_eq!(
        BuildError::UnsupportedDeclaration.category(),
        ErrorCategory::UnsupportedDeclaration
    );
    assert_eq!(BuildError::MissingName.category(), ErrorCategory::MissingName);
}
