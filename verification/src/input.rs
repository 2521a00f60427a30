//! Declaration analyzer: the model of the raw input declaration, and the
//! validation pass that confirms it is an enumerated type whose variants are
//! all payload-free and at least one in number, extracting the ordered
//! variant list that drives the rest of the pipeline.

use vstd::prelude::*;
use crate::ast::Ident;
use crate::cases::VariantList;

verus! {

/// The shape of one variant of the input declaration: payload-free, or
/// carrying named or positional fields.
pub enum Fields {
    Unit,
    Named,
    Unnamed,
}

/// One variant of the input declaration: its name and its shape.
pub struct Variant {
    pub ident: Ident,
    pub fields: Fields,
}

/// The payload of the input declaration.
pub enum Data {
    Enum(Vec<Variant>),
    Struct,
    Union,
}

/// The raw input declaration, as the invoking mechanism hands it in: the
/// type's name and its payload.
pub struct DeriveInput {
    pub ident: Ident,
    pub data: Data,
}

/// A fatal rejection of the input declaration. Every error carries the
/// offending name, for the invoking compilation to surface.
pub enum DeriveError {
    /// The declaration is not an enumerated type; carries the type name.
    NotAnEnum(Ident),
    /// A variant carries associated fields; carries the variant name.
    NonUnitVariant(Ident),
    /// The enumerated type declares no variants; carries the type name.
    EmptyEnum(Ident),
}

/// The names of a run of variants, in declaration order.
pub open spec fn variant_names(vs: Seq<Variant>) -> Seq<Seq<char>> {
    vs.map(|i: int, v: Variant| v.ident@)
}

/// Holds when every variant before position `k` is payload-free.
pub open spec fn all_unit_to(vs: Seq<Variant>, k: int) -> bool {
    forall|j: int| 0 <= j < k ==> vs[j].fields is Unit
}

/// Holds of exactly the input declarations the generator accepts: an
/// enumerated type, every variant payload-free, at least one variant.
pub open spec fn accepted(input: DeriveInput) -> bool {
    &&& input.data matches Data::Enum(vs)
    &&& all_unit_to(vs@, vs@.len() as int)
    &&& vs@.len() >= 1
}

/// Holds when `e` is the rejection the analyzer owes `input`: a non-enum
/// input is rejected with the type's name, a payload-bearing variant with
/// the name of the first such variant in declaration order, and an
/// enumerated type with zero variants with the type's name.
pub open spec fn rejected_with(input: DeriveInput, e: DeriveError) -> bool {
    match e {
        DeriveError::NotAnEnum(n) => !(input.data is Enum) && n@ == input.ident@,
        DeriveError::NonUnitVariant(n) => input.data matches Data::Enum(vs) && (exists|i: int|
            0 <= i < vs@.len() && !(vs@[i].fields is Unit) && all_unit_to(vs@, i) && n@
                == vs@[i].ident@),
        DeriveError::EmptyEnum(n) => input.data matches Data::Enum(vs) && vs@.len() == 0 && n@
            == input.ident@,
    }
}

/// Validates the input shape and extracts the ordered variant model. The
/// declaration must be an enumerated type, every variant must be
/// payload-free, and at least one variant must be declared; any failure is
/// fatal and names the offending type or variant. The returned list holds
/// the variant names in declaration order exactly — nothing is reordered,
/// deduplicated or dropped.
pub fn analyze(input: &DeriveInput) -> (r: Result<VariantList, DeriveError>)
    ensures
        match r {
            Ok(list) => accepted(*input) && (input.data matches Data::Enum(vs) && list@
                == variant_names(vs@)) && list.wf(),
            Err(e) => !accepted(*input) && rejected_with(*input, e),
        },
{
    let vs = match &input.data {
        Data::Enum(vs) => vs,
        _ => {
            return Err(DeriveError::NotAnEnum(input.ident.clone()));
        },
    };
    let n = vs.len();
    let mut names: Vec<Ident> = Vec::new();
    let mut i: usize = 0;
    while i < n
        invariant
            input.data is Enum,
            input.data->Enum_0 == *vs,
            n == vs@.len(),
            i <= n,
            all_unit_to(vs@, i as int),
            names@.len() == i,
            forall|j: int| 0 <= j < i ==> names@[j] == vs@[j].ident,
        decreases n - i,
    {
        match &vs[i].fields {
            Fields::Unit => {},
            _ => {
                let bad = vs[i].ident.clone();
                proof {
                    assert(exists|q: int|
                        0 <= q < vs@.len() && !(vs@[q].fields is Unit) && all_unit_to(vs@, q)
                            && bad@ == vs@[q].ident@) by {
                        assert((i as int) < vs@.len() && !(vs@[i as int].fields is Unit)
                            && all_unit_to(vs@, i as int) && bad@ == vs@[i as int].ident@);
                    }
                    assert(!all_unit_to(vs@, vs@.len() as int)) by {
                        assert(!(vs@[i as int].fields is Unit));
                    }
                }
                return Err(DeriveError::NonUnitVariant(bad));
            },
        }
        names.push(vs[i].ident.clone());
        i += 1;
    }
    if names.len() == 0 {
        return Err(DeriveError::EmptyEnum(input.ident.clone()));
    }
    let list = VariantList { names };
    proof {
        assert(list@ =~= variant_names(vs@));
    }
    Ok(list)
}

} // verus!
