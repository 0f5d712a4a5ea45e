use vstd::prelude::*;
use crate::diagnostic::{Diagnostic, ErrorKind, Location};
use crate::model::{convertible, shape_of, ConversionDescriptor, FieldName, Fields, Shape, Variant};

verus! {

/// What validation makes of the variant at position `i`: nothing when it is
/// skipped, else its descriptor (described by the variant) or its diagnostic.
pub open spec fn variant_diagnostic(v: Variant, i: usize) -> Option<Diagnostic> {
    if v.skip {
        None
    } else {
        match shape_of(v.fields) {
            Shape::Single => None,
            Shape::Unit => Some(Diagnostic { kind: ErrorKind::UnitVariant, location: Location::VariantName(i) }),
            Shape::Multi => Some(Diagnostic { kind: ErrorKind::MultiField, location: Location::VariantFields(i) }),
        }
    }
}

/// Classifies the variant at position `i`: a skipped variant gives nothing, a
/// variant with one field its descriptor, any other variant a diagnostic.
pub fn validate_variant(v: &Variant, i: usize) -> (r: Option<Result<ConversionDescriptor, Diagnostic>>)
    ensures
        v.skip <==> r is None,
        r matches Some(Ok(d)) ==> d.describes(*v),
        (r matches Some(Ok(_))) <==> convertible(*v),
        r matches Some(Err(e)) ==> variant_diagnostic(*v, i) == Some(e),
        variant_diagnostic(*v, i) is Some ==> r matches Some(Err(_)),
{
    if v.skip {
        return None;
    }
    match &v.fields {
        Fields::Named(fs) => {
            if fs.len() == 1 {
                let f = &fs[0];
                Some(Ok(ConversionDescriptor {
                    variant_name: v.name.clone(),
                    accessor: FieldName::Ident(f.name.clone()),
                    payload_type: f.ty.clone(),
                }))
            } else if fs.len() == 0 {
                Some(Err(Diagnostic { kind: ErrorKind::UnitVariant, location: Location::VariantName(i) }))
            } else {
                Some(Err(Diagnostic { kind: ErrorKind::MultiField, location: Location::VariantFields(i) }))
            }
        },
        Fields::Unnamed(ts) => {
            if ts.len() == 1 {
                Some(Ok(ConversionDescriptor {
                    variant_name: v.name.clone(),
                    accessor: FieldName::Index,
                    payload_type: ts[0].clone(),
                }))
            } else if ts.len() == 0 {
                Some(Err(Diagnostic { kind: ErrorKind::UnitVariant, location: Location::VariantName(i) }))
            } else {
                Some(Err(Diagnostic { kind: ErrorKind::MultiField, location: Location::VariantFields(i) }))
            }
        },
        Fields::Unit => Some(Err(Diagnostic { kind: ErrorKind::UnitVariant, location: Location::VariantName(i) })),
    }
}

} // verus!
