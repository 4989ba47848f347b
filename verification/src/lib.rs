//! Compile-time generator of numeric conversion implementations for
//! user-defined enumerations.
//!
//! Given a structured description of an annotated type, the library
//! validates that it is an enumeration made only of unit variants,
//! resolves each variant's 64-bit signed discriminant, and builds the
//! two conversion implementations — integer-to-value (`FromPrimitive`)
//! and value-to-integer (`ToPrimitive`) — wrapped in a uniquely named
//! private scope.

use vstd::prelude::*;

pub mod discriminant;
pub mod from_integer;
pub mod mangle;
pub mod model;
pub mod to_integer;
pub mod validate;

verus! {

/// Wraps a generated implementation in the private scope derived from
/// the capability label and the type name.
pub fn emit(capability_label: &str, name: &str, body: model::GeneratedImpl) -> (m:
    model::GeneratedModule)
    ensures
        m.scope_name@ == mangle::spec_scope_name(capability_label@, name@),
        m.body == body,
{
    let scope_name = mangle::mangle_scope_name(capability_label, name);
    model::GeneratedModule { scope_name, body }
}

/// Derives the integer-to-value conversion capability for the described
/// type.  Validation runs first and must fully succeed — on any shape
/// other than a unit-only enumeration the descriptive error comes back
/// and nothing is generated.  On success, the generated implementation
/// holds one equality test per variant, in declaration order, against
/// its resolved discriminant, wrapped in a private scope named for this
/// capability and the type.
pub fn from_primitive(def: &model::TypeDefinition) -> (r: Result<
    model::GeneratedModule,
    validate::GenerationError,
>)
    ensures
        r is Ok <==> model::is_unit_enumeration(*def),
        r matches Ok(m) ==> {
            &&& m.scope_name@ == mangle::spec_scope_name("FromPrimative"@, def.name@)
            &&& m.body matches model::GeneratedImpl::FromInteger(fi)
                && fi.name@ == def.name@
                && discriminant::clauses_resolve(def.variants@, fi.clauses@)
        },
        r matches Err(e) ==> validate::error_describes(
            *def,
            validate::Capability::FromPrimitive,
            e,
        ),
{
    match validate::validate(def, validate::Capability::FromPrimitive) {
        Err(e) => Err(e),
        Ok(()) => {
            let body = from_integer::build_from_integer(def);
            Ok(emit("FromPrimative", def.name.as_str(), model::GeneratedImpl::FromInteger(body)))
        },
    }
}

/// Derives the value-to-integer conversion capability for the described
/// type.  Validation runs first and must fully succeed — on any shape
/// other than a unit-only enumeration the descriptive error comes back
/// and nothing is generated.  On success, the generated implementation
/// holds one case per variant, in declaration order, producing its
/// resolved discriminant, wrapped in a private scope named for this
/// capability and the type.
pub fn to_primitive(def: &model::TypeDefinition) -> (r: Result<
    model::GeneratedModule,
    validate::GenerationError,
>)
    ensures
        r is Ok <==> model::is_unit_enumeration(*def),
        r matches Ok(m) ==> {
            &&& m.scope_name@ == mangle::spec_scope_name("ToPrimative"@, def.name@)
            &&& m.body matches model::GeneratedImpl::ToInteger(ti)
                && ti.name@ == def.name@
                && discriminant::clauses_resolve(def.variants@, ti.arms@)
        },
        r matches Err(e) ==> validate::error_describes(*def, validate::Capability::ToPrimitive, e),
{
    match validate::validate(def, validate::Capability::ToPrimitive) {
        Err(e) => Err(e),
        Ok(()) => {
            let body = to_integer::build_to_integer(def);
            Ok(emit("ToPrimative", def.name.as_str(), model::GeneratedImpl::ToInteger(body)))
        },
    }
}

/// Round trip: for an enumeration whose variants are numbered
/// implicitly, the two generated conversions invert each other.  When
/// both implementations were generated over the same variants and no
/// variant declares an explicit discriminant, converting the variant at
/// ordinal `i` to its integer and feeding that integer to the
/// integer-to-value chain yields that same variant back, for every
/// ordinal.  (A variant list longer than `2^63` would wrap and repeat
/// discriminants; no realizable list comes near that.)
pub proof fn lemma_round_trip(
    def: model::TypeDefinition,
    fi: model::FromIntegerImpl,
    ti: model::ToIntegerImpl,
    i: int,
)
    requires
        discriminant::clauses_resolve(def.variants@, fi.clauses@),
        discriminant::clauses_resolve(def.variants@, ti.arms@),
        0 <= i < def.variants@.len(),
        def.variants@.len() <= 0x8000_0000_0000_0000,
        forall|j: int| 0 <= j < def.variants@.len() ==> def.variants@[j].discriminant is None,
    ensures
        from_integer::first_match(fi.values(), ti.values()[i] as int) == Some(i),
{
    let vs = def.variants@;
    assert forall|k: int|
        0 <= k < vs.len() implies fi.values()[k] == discriminant::discriminant_seq(vs)[k] by {}
    assert(fi.values() =~= discriminant::discriminant_seq(vs));
    assert forall|k: int|
        0 <= k < vs.len() implies ti.values()[k] == discriminant::discriminant_seq(vs)[k] by {}
    assert(ti.values() =~= discriminant::discriminant_seq(vs));
    from_integer::lemma_implicit_round_trip(vs, i);
}

} // verus!
