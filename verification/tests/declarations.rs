use tagged_dispatch::decl::{
    augment_impl, capability_descriptor, expand, process_implementation, process_interface,
    simple_ident, CapabilityDescriptor, Expanded, ImplDecl, Input, Member, Mode, Registration,
    TraitDecl, TypeShape,
};
use tagged_dispatch::directive::{DirectiveToken, ImplArgs, TraitArgs};
use tagged_dispatch::errors::{BuildError, DirectiveKey};

fn plain_impl(trait_ref: &str, ty: &str) -> ImplDecl {
    ImplDecl {
        trait_ref: Some(trait_ref.to_string()),
        generic_params: 0,
        self_ty: TypeShape::Path(ty.to_string()),
        members: vec![Member::Operation],
    }
}

#[test]
fn simple_ident_of_a_path_type() {
    let ty = TypeShape::Path("Circle".to_string());
    assert_eq!(simple_ident(&ty), Some("Circle".to_string()));
}

#[test]
fn simple_ident_reaches_through_groups() {
    let ty = TypeShape::Group(Box::new(TypeShape::Group(Box::new(TypeShape::Path(
        "Sq".to_string(),
    )))));
    assert_eq!(simple_ident(&ty), Some("Sq".to_string()));
}

#[test]
fn structural_types_have_no_simple_ident() {
    assert_eq!(simple_ident(&TypeShape::Other), None);
    let ty = TypeShape::Group(Box::new(TypeShape::Other));
    assert_eq!(simple_ident(&ty), None);
}

#[test]
fn validate_rejects_associated_const_on_a_trait() {
    let decl = Input::Trait(TraitDecl {
        name: "Shape".to_string(),
        members: vec![Member::Operation, Member::AssocConst],
    });
    assert_eq!(decl.validate(), Err(BuildError::UnsupportedDeclaration));
}

#[test]
fn validate_rejects_associated_type_on_an_impl() {
    let mut decl = plain_impl("Shape", "Circle");
    decl.members.push(Member::AssocType);
    assert_eq!(Input::Impl(decl).validate(), Err(BuildError::UnsupportedDeclaration));
}

#[test]
fn validate_rejects_inherent_impl_blocks() {
    let mut decl = plain_impl("Shape", "Circle");
    decl.trait_ref = None;
    assert_eq!(Input::Impl(decl).validate(), Err(BuildError::UnsupportedDeclaration));
}

#[test]
fn validate_accepts_a_plain_trait_and_impl() {
    let t = Input::Trait(TraitDecl {
        name: "Shape".to_string(),
        members: vec![Member::Operation, Member::Operation],
    });
    assert_eq!(t.validate(), Ok(()));
    assert_eq!(Input::Impl(plain_impl("Shape", "Circle")).validate(), Ok(()));
}

#[test]
fn expand_serialization_only_injects_the_name_accessor() {
    let r = expand(
        ImplArgs { name: None },
        plain_impl("Shape", "Circle"),
        Mode { ser: true, de: false },
    );
    let ex = r.unwrap();
    assert_eq!(
        ex.decl.members,
        vec![Member::Operation, Member::NameAccessor("Circle".to_string())]
    );
    assert_eq!(ex.registration, None);
}

#[test]
fn expand_deserialization_emits_a_registration() {
    let r = expand(
        ImplArgs { name: None },
        plain_impl("Shape", "Circle"),
        Mode { ser: true, de: true },
    );
    let ex = r.unwrap();
    assert_eq!(
        ex.decl.members,
        vec![
            Member::Operation,
            Member::NameAccessor("Circle".to_string()),
            Member::DeserializeMarker,
        ]
    );
    assert_eq!(
        ex.registration,
        Some(Registration {
            interface: "Shape".to_string(),
            discriminant: "Circle".to_string(),
        })
    );
}

#[test]
fn expand_prefers_the_explicit_name() {
    let r = expand(
        ImplArgs { name: Some("Ring".to_string()) },
        plain_impl("Shape", "Circle"),
        Mode { ser: true, de: true },
    );
    let ex = r.unwrap();
    assert_eq!(
        ex.registration,
        Some(Registration {
            interface: "Shape".to_string(),
            discriminant: "Ring".to_string(),
        })
    );
}

#[test]
fn expand_rejects_generic_impls_requesting_deserialization() {
    let mut decl = plain_impl("Shape", "Poly");
    decl.generic_params = 1;
    let r = expand(ImplArgs { name: None }, decl, Mode { ser: true, de: true });
    assert_eq!(r, Err(BuildError::UnsupportedDeclaration));
}

#[test]
fn expand_allows_generic_impls_in_serialization_only_mode() {
    let mut decl = plain_impl("Shape", "Poly");
    decl.generic_params = 1;
    let r = expand(ImplArgs { name: None }, decl, Mode { ser: true, de: false });
    assert!(r.is_ok());
}

#[test]
fn expand_rejects_an_impl_without_a_trait_reference() {
    let mut decl = plain_impl("Shape", "Circle");
    decl.trait_ref = None;
    let r = expand(ImplArgs { name: None }, decl, Mode { ser: true, de: true });
    assert_eq!(r, Err(BuildError::UnsupportedDeclaration));
}

#[test]
fn nameless_structural_type_is_rejected() {
    let mut decl = plain_impl("Shape", "ignored");
    decl.self_ty = TypeShape::Other;
    let r = expand(ImplArgs { name: None }, decl, Mode { ser: true, de: true });
    assert_eq!(r, Err(BuildError::MissingName));
}

#[test]
fn nameless_structural_type_is_saved_by_an_explicit_name() {
    let mut decl = plain_impl("Shape", "ignored");
    decl.self_ty = TypeShape::Other;
    let r = expand(
        ImplArgs { name: Some("Pair".to_string()) },
        decl,
        Mode { ser: true, de: true },
    );
    let ex = r.unwrap();
    assert_eq!(
        ex.registration,
        Some(Registration {
            interface: "Shape".to_string(),
            discriminant: "Pair".to_string(),
        })
    );
}

#[test]
fn augment_impl_appends_in_order() {
    let mut decl = plain_impl("Shape", "Circle");
    augment_impl(&mut decl, &"Circle".to_string(), Mode { ser: true, de: true });
    assert_eq!(
        decl.members,
        vec![
            Member::Operation,
            Member::NameAccessor("Circle".to_string()),
            Member::DeserializeMarker,
        ]
    );
}

#[test]
fn augment_impl_without_requests_changes_nothing() {
    let mut decl = plain_impl("Shape", "Circle");
    augment_impl(&mut decl, &"Circle".to_string(), Mode { ser: false, de: false });
    assert_eq!(decl.members, vec![Member::Operation]);
}

#[test]
fn capability_descriptor_follows_the_scheme() {
    let scheme = TraitArgs::Internal {
        tag: "type".to_string(),
        default_variant: None,
        write_tag: false,
    };
    let r = capability_descriptor(
        &ImplArgs { name: None },
        &TypeShape::Path("Circle".to_string()),
        &scheme,
        Mode { ser: true, de: true },
    );
    assert_eq!(
        r,
        Ok(CapabilityDescriptor {
            discriminant: "Circle".to_string(),
            write_tag: false,
            deserialize_enabled: true,
        })
    );
    let r2 = capability_descriptor(
        &ImplArgs { name: None },
        &TypeShape::Path("Circle".to_string()),
        &TraitArgs::External,
        Mode { ser: true, de: false },
    );
    assert_eq!(
        r2,
        Ok(CapabilityDescriptor {
            discriminant: "Circle".to_string(),
            write_tag: true,
            deserialize_enabled: false,
        })
    );
}

#[test]
fn process_interface_parses_then_checks_shape() {
    let decl = TraitDecl { name: "Shape".to_string(), members: vec![Member::Operation] };
    let tokens = vec![DirectiveToken {
        key: DirectiveKey::Tag,
        value: Some("type".to_string()),
    }];
    assert_eq!(
        process_interface(&decl, &tokens),
        Ok(TraitArgs::Internal {
            tag: "type".to_string(),
            default_variant: None,
            write_tag: true,
        })
    );
    let bad = TraitDecl {
        name: "Shape".to_string(),
        members: vec![Member::AssocConst],
    };
    assert_eq!(
        process_interface(&bad, &tokens),
        Err(BuildError::UnsupportedDeclaration)
    );
    // A directive fault is reported before the declaration's shape is read.
    let bad_tokens = vec![DirectiveToken { key: DirectiveKey::Content, value: Some("c".to_string()) }];
    assert_eq!(process_interface(&bad, &bad_tokens), Err(BuildError::TagNotGiven));
}

#[test]
fn process_implementation_threads_the_directive_through() {
    let tokens = vec![DirectiveToken {
        key: DirectiveKey::Name,
        value: Some("Ring".to_string()),
    }];
    let r = process_implementation(
        &tokens,
        plain_impl("Shape", "Circle"),
        Mode { ser: true, de: true },
    );
    let ex: Expanded = r.unwrap();
    assert_eq!(
        ex.registration,
        Some(Registration {
            interface: "Shape".to_string(),
            discriminant: "Ring".to_string(),
        })
    );
    let bad = vec![DirectiveToken { key: DirectiveKey::Tag, value: Some("t".to_string()) }];
    let r2 = process_implementation(
        &bad,
        plain_impl("Shape", "Circle"),
        Mode { ser: true, de: true },
    );
    assert_eq!(r2, Err(BuildError::UnknownKey));
}
