//! Declaration transformation: validating the shape of interface and
//! implementation declarations, resolving each implementation's discriminant,
//! injecting the hidden capability members, and emitting the registry
//! contribution for deserializing implementations.
//!
//! Declarations are modeled by what the transformation reads of them: their
//! member kinds, the presence of a trait reference, the number of generic
//! parameters, and the shape of the implementing type.

use vstd::prelude::*;

use crate::directive::{
    spec_parse_impl_args, spec_parse_trait_args, spec_scheme_write_tag, DirectiveToken, ImplArgs,
    TraitArgs,
};
use crate::errors::BuildError;

verus! {

/// The shape of an implementing type, as far as discriminant derivation
/// reads it: a path type keeps its innermost unqualified identifier, a
/// parenthesized group wraps another shape, and every structural type (a
/// tuple, a reference, a pointer) has no derivable name.
#[derive(Debug, PartialEq, Eq)]
pub enum TypeShape {
    Path(String),
    Group(Box<TypeShape>),
    Other,
}

/// One member of a declaration: a declared operation, an associated item,
/// or one of the two hidden capability members this transformation injects.
#[derive(Clone, Debug, PartialEq, Eq)]
pub enum Member {
    /// An ordinary operation the author declared.
    Operation,
    /// An associated constant; not supported.
    AssocConst,
    /// An associated type; not supported.
    AssocType,
    /// The injected accessor returning the discriminant string.
    NameAccessor(String),
    /// The injected marker by which the erasure layer recognizes
    /// deserializable implementations.
    DeserializeMarker,
}

/// An interface declaration: its identity and its members.
#[derive(Clone, Debug, PartialEq, Eq)]
pub struct TraitDecl {
    pub name: String,
    pub members: Vec<Member>,
}

/// An implementation declaration: the interface it references (if it is not
/// an inherent block), its generic parameter count, the implementing type's
/// shape, and its members.
#[derive(Debug, PartialEq, Eq)]
pub struct ImplDecl {
    pub trait_ref: Option<String>,
    pub generic_params: usize,
    pub self_ty: TypeShape,
    pub members: Vec<Member>,
}

/// A declaration this transformation is attached to.
#[derive(Debug, PartialEq, Eq)]
pub enum Input {
    Trait(TraitDecl),
    Impl(ImplDecl),
}

/// Which of serialization and deserialization the directive requests.
#[derive(Clone, Copy, Debug, PartialEq, Eq, Structural)]
pub struct Mode {
    pub ser: bool,
    pub de: bool,
}

/// The registry contribution emitted for one deserializing implementation:
/// under which interface and discriminant its factory is to be registered.
#[derive(Clone, Debug, PartialEq, Eq)]
pub struct Registration {
    pub interface: String,
    pub discriminant: String,
}

/// The result of a successful transformation: the augmented declaration and,
/// for deserializing implementations, the registry contribution.
#[derive(Debug, PartialEq, Eq)]
pub struct Expanded {
    pub decl: ImplDecl,
    pub registration: Option<Registration>,
}

/// The derived capability record of one implementation: its discriminant,
/// whether the writer emits the tag field for it, and whether it can be
/// deserialized.
#[derive(Clone, Debug, PartialEq, Eq)]
pub struct CapabilityDescriptor {
    pub discriminant: String,
    pub write_tag: bool,
    pub deserialize_enabled: bool,
}

/// The simple identifier of a type shape: the path identifier, found through
/// any number of groups; structural types have none.
pub open spec fn spec_simple_ident(ty: TypeShape) -> Option<String>
    decreases ty,
{
    match ty {
        TypeShape::Path(ident) => Some(ident),
        TypeShape::Group(inner) => spec_simple_ident(*inner),
        TypeShape::Other => None,
    }
}

/// The discriminant of an implementation: the explicit `name` if one was
/// given, else the implementing type's simple identifier.
pub open spec fn spec_discriminant(args: ImplArgs, self_ty: TypeShape) -> Option<String> {
    match args.name {
        Some(n) => Some(n),
        None => spec_simple_ident(self_ty),
    }
}

/// Whether a member is an associated constant or associated type.
pub open spec fn spec_is_assoc(m: Member) -> bool {
    m is AssocConst || m is AssocType
}

/// Whether any member is an associated constant or associated type.
pub open spec fn spec_has_assoc(members: Seq<Member>) -> bool {
    exists|i: int| 0 <= i < members.len() && spec_is_assoc(members[i])
}

/// Which declarations are accepted: no associated constants or types
/// anywhere, and an implementation must reference an interface.
pub open spec fn spec_validate(input: Input) -> Result<(), BuildError> {
    match input {
        Input::Trait(t) => if spec_has_assoc(t.members@) {
            Err(BuildError::UnsupportedDeclaration)
        } else {
            Ok(())
        },
        Input::Impl(im) => if im.trait_ref is None {
            Err(BuildError::UnsupportedDeclaration)
        } else if spec_has_assoc(im.members@) {
            Err(BuildError::UnsupportedDeclaration)
        } else {
            Ok(())
        },
    }
}

/// The members after augmentation: the name accessor when serialization is
/// requested, then the deserialization marker when deserialization is.
pub open spec fn spec_augmented_members(members: Seq<Member>, name: String, mode: Mode) -> Seq<
    Member,
> {
    let with_ser = if mode.ser {
        members.push(Member::NameAccessor(name))
    } else {
        members
    };
    if mode.de {
        with_ser.push(Member::DeserializeMarker)
    } else {
        with_ser
    }
}

/// What a successful transformation returns: the declaration unchanged but
/// for its augmented members, and the contribution exactly when
/// deserialization was requested.
pub open spec fn spec_expand_ok(args: ImplArgs, input: ImplDecl, mode: Mode, ex: Expanded) -> bool {
    let name = spec_discriminant(args, input.self_ty).unwrap();
    &&& ex.decl.trait_ref == input.trait_ref
    &&& ex.decl.generic_params == input.generic_params
    &&& ex.decl.self_ty == input.self_ty
    &&& ex.decl.members@ == spec_augmented_members(input.members@, name, mode)
    &&& (mode.de ==> ex.registration == Some(
        Registration { interface: input.trait_ref.unwrap(), discriminant: name },
    ))
    &&& (!mode.de ==> ex.registration is None)
}

/// The whole contract of transforming one implementation declaration: which
/// result comes back for which directive, declaration and mode.
pub open spec fn spec_expand_post(
    args: ImplArgs,
    input: ImplDecl,
    mode: Mode,
    r: Result<Expanded, BuildError>,
) -> bool {
    &&& (r is Ok <==> (input.trait_ref is Some && !(mode.de && input.generic_params > 0)
        && spec_discriminant(args, input.self_ty) is Some))
    &&& (r is Ok ==> spec_expand_ok(args, input, mode, r.unwrap()))
    &&& (input.trait_ref is None ==> r == Err::<Expanded, BuildError>(
        BuildError::UnsupportedDeclaration,
    ))
    &&& (input.trait_ref is Some && mode.de && input.generic_params > 0 ==> r == Err::<
        Expanded,
        BuildError,
    >(BuildError::UnsupportedDeclaration))
    &&& (input.trait_ref is Some && !(mode.de && input.generic_params > 0) && spec_discriminant(
        args,
        input.self_ty,
    ) is None ==> r == Err::<Expanded, BuildError>(BuildError::MissingName))
}

/// Processing one interface declaration: the directive is parsed first, then
/// the declaration's shape is checked, and the scheme is handed back as the
/// metadata the reader and writer consult.
pub open spec fn spec_process_interface(members: Seq<Member>, tokens: Seq<DirectiveToken>) -> Result<
    TraitArgs,
    BuildError,
> {
    match spec_parse_trait_args(tokens) {
        Err(e) => Err(e),
        Ok(scheme) => if spec_has_assoc(members) {
            Err(BuildError::UnsupportedDeclaration)
        } else {
            Ok(scheme)
        },
    }
}

/// The derived capability record, or the fault that prevents one.
pub open spec fn spec_capability_descriptor(
    args: ImplArgs,
    self_ty: TypeShape,
    scheme: TraitArgs,
    mode: Mode,
) -> Result<CapabilityDescriptor, BuildError> {
    match spec_discriminant(args, self_ty) {
        None => Err(BuildError::MissingName),
        Some(name) => Ok(
            CapabilityDescriptor {
                discriminant: name,
                write_tag: spec_scheme_write_tag(scheme),
                deserialize_enabled: mode.de,
            },
        ),
    }
}

/// The simple identifier of an implementing type, found through any number
/// of groups.
pub fn simple_ident(ty: &TypeShape) -> (r: Option<String>)
    ensures
        r == spec_simple_ident(*ty),
    decreases *ty,
{
    match ty {
        TypeShape::Path(ident) => Some(ident.clone()),
        TypeShape::Group(inner) => simple_ident(inner),
        TypeShape::Other => None,
    }
}

/// Whether any member is an associated constant or associated type.
fn has_assoc_member(members: &Vec<Member>) -> (r: bool)
    ensures
        r == spec_has_assoc(members@),
{
    let mut i: usize = 0;
    while i < members.len()
        invariant
            0 <= i <= members@.len(),
            forall|j: int| 0 <= j < i ==> !spec_is_assoc(members@[j]),
        decreases members@.len() - i,
    {
        match members[i] {
            Member::AssocConst => {
                return true;
            },
            Member::AssocType => {
                return true;
            },
            _ => {},
        }
        i = i + 1;
    }
    false
}

impl Input {
    /// Check the declaration's shape: associated constants and associated
    /// types are rejected everywhere, and an implementation without a trait
    /// reference (an inherent block) is rejected.
    pub fn validate(&self) -> (r: Result<(), BuildError>)
        ensures
            r == spec_validate(*self),
    {
        match self {
            Input::Trait(t) => {
                if has_assoc_member(&t.members) {
                    Err(BuildError::UnsupportedDeclaration)
                } else {
                    Ok(())
                }
            },
            Input::Impl(im) => {
                if im.trait_ref.is_none() {
                    Err(BuildError::UnsupportedDeclaration)
                } else if has_assoc_member(&im.members) {
                    Err(BuildError::UnsupportedDeclaration)
                } else {
                    Ok(())
                }
            },
        }
    }
}

/// Inject the hidden capability members: the name accessor when
/// serialization is requested, the deserialization marker when
/// deserialization is.
pub fn augment_impl(input: &mut ImplDecl, name: &String, mode: Mode)
    ensures
        final(input).members@ == spec_augmented_members(old(input).members@, *name, mode),
        final(input).trait_ref == old(input).trait_ref,
        final(input).generic_params == old(input).generic_params,
        final(input).self_ty == old(input).self_ty,
{
    if mode.ser {
        input.members.push(Member::NameAccessor(name.clone()));
    }
    if mode.de {
        input.members.push(Member::DeserializeMarker);
    }
}

/// Transform one implementation declaration: validate its shape, resolve
/// its discriminant, inject the capability members, and emit the registry
/// contribution when deserialization is requested.
pub fn expand(args: ImplArgs, input: ImplDecl, mode: Mode) -> (r: Result<Expanded, BuildError>)
    ensures
        spec_expand_post(args, input, mode, r),
{
    let interface = match &input.trait_ref {
        Some(t) => t.clone(),
        None => {
            return Err(BuildError::UnsupportedDeclaration);
        },
    };
    if mode.de && input.generic_params > 0 {
        return Err(BuildError::UnsupportedDeclaration);
    }
    let name = match args.name {
        Some(n) => n,
        None => match simple_ident(&input.self_ty) {
            Some(n) => n,
            None => {
                return Err(BuildError::MissingName);
            },
        },
    };
    let mut decl = input;
    augment_impl(&mut decl, &name, mode);
    let registration = if mode.de {
        Some(Registration { interface, discriminant: name })
    } else {
        None
    };
    Ok(Expanded { decl, registration })
}

/// Derive the capability record of one implementation from its own
/// directive and its interface's scheme.
pub fn capability_descriptor(
    args: &ImplArgs,
    self_ty: &TypeShape,
    scheme: &TraitArgs,
    mode: Mode,
) -> (r: Result<CapabilityDescriptor, BuildError>)
    ensures
        r == spec_capability_descriptor(*args, *self_ty, *scheme, mode),
{
    let name = match &args.name {
        Some(n) => n.clone(),
        None => match simple_ident(self_ty) {
            Some(n) => n,
            None => {
                return Err(BuildError::MissingName);
            },
        },
    };
    let write_tag = match scheme {
        TraitArgs::Internal { write_tag, .. } => *write_tag,
        _ => true,
    };
    Ok(CapabilityDescriptor { discriminant: name, write_tag, deserialize_enabled: mode.de })
}

/// Process one interface declaration: parse its directive into a scheme and
/// check the declaration's shape. The scheme is the metadata the reader and
/// writer consult for every value behind this interface.
pub fn process_interface(decl: &TraitDecl, tokens: &Vec<DirectiveToken>) -> (r: Result<
    TraitArgs,
    BuildError,
>)
    ensures
        r == spec_process_interface(decl.members@, tokens@),
{
    let scheme = match TraitArgs::parse(tokens) {
        Ok(s) => s,
        Err(e) => {
            return Err(e);
        },
    };
    if has_assoc_member(&decl.members) {
        return Err(BuildError::UnsupportedDeclaration);
    }
    Ok(scheme)
}

/// Process one implementation declaration: parse its directive, then
/// validate and transform the declaration under it.
pub fn process_implementation(
    tokens: &Vec<DirectiveToken>,
    input: ImplDecl,
    mode: Mode,
) -> (r: Result<Expanded, BuildError>)
    ensures
        spec_parse_impl_args(tokens@) matches Err(e) ==> (r matches Err(e2) && e2 == e),
        spec_parse_impl_args(tokens@) matches Ok(args) ==> spec_expand_post(args, input, mode, r),
{
    let args = match ImplArgs::parse(tokens) {
        Ok(a) => a,
        Err(e) => {
            return Err(e);
        },
    };
    expand(args, input, mode)
}

} // verus!
