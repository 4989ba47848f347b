//! Scope mangler: derives the identifier of the private scope that
//! wraps the generated implementation.  The name combines the
//! capability's label and the annotated type's name, both uppercased,
//! so uniqueness per (capability, type) pair is structural — no
//! randomness is involved — and the host's rejection of duplicate
//! declarations catches repeated derivations of one capability for one
//! type.

use vstd::prelude::*;
use vstd::string::StringExecFns;

verus! {

/// The uppercase form of a sequence of characters, as
/// `str::to_uppercase` computes it.
pub uninterp spec fn uppercase_of(s: Seq<char>) -> Seq<char>;

/// Relies on `str::to_uppercase`: the Unicode uppercase form of the
/// string, a function of its characters alone.
#[verifier::external_body]
fn to_uppercase(s: &str) -> (r: String)
    ensures
        r@ == uppercase_of(s@),
{
    s.to_uppercase()
}

/// The scope identifier derived from a capability label and a type
/// name.
pub open spec fn spec_scope_name(capability_label: Seq<char>, name: Seq<char>) -> Seq<char> {
    "_IMPL_NUM_"@ + uppercase_of(capability_label) + "_FOR_"@ + uppercase_of(name)
}

/// Derives the identifier of the private wrapping scope from the
/// capability label and the type name.
pub fn mangle_scope_name(capability_label: &str, name: &str) -> (r: String)
    ensures
        r@ == spec_scope_name(capability_label@, name@),
{
    let mut r = String::from_str("_IMPL_NUM_");
    let upper_label = to_uppercase(capability_label);
    r.append(upper_label.as_str());
    r.append("_FOR_");
    let upper_name = to_uppercase(name);
    r.append(upper_name.as_str());
    proof {
        assert(r@ =~= spec_scope_name(capability_label@, name@));
    }
    r
}

} // verus!
