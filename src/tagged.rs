use vstd::prelude::*;

verus! {

/// A value of an enum, held as the position of its variant and that
/// variant's payload.
pub struct Tagged<P> {
    pub variant: usize,
    pub payload: P,
}

pub open spec fn wrap_spec<P>(variant: usize, payload: P) -> Tagged<P> {
    Tagged { variant, payload }
}

pub open spec fn unwrap_spec<P>(variant: usize, value: Tagged<P>) -> Result<P, Tagged<P>> {
    if value.variant == variant {
        Ok(value.payload)
    } else {
        Err(value)
    }
}

/// Puts `payload` into the variant at position `variant`, as a generated
/// `From` impl does.
pub fn wrap<P>(variant: usize, payload: P) -> (r: Tagged<P>)
    ensures
        r == wrap_spec(variant, payload),
{
    Tagged { variant, payload }
}

/// Takes the payload out when `value` holds the variant at position
/// `variant`, and hands `value` back unchanged otherwise, as a generated
/// `TryFrom` impl does: one arm for the variant and one for all the others.
pub fn unwrap<P>(variant: usize, value: Tagged<P>) -> (r: Result<P, Tagged<P>>)
    ensures
        r == unwrap_spec(variant, value),
{
    if value.variant == variant {
        Ok(value.payload)
    } else {
        Err(value)
    }
}

/// Unwrapping what was wrapped into the same variant gives the payload back.
pub proof fn lemma_round_trip<P>(variant: usize, payload: P)
    ensures
        unwrap_spec(variant, wrap_spec(variant, payload)) == Ok::<P, Tagged<P>>(payload),
{
}

/// Unwrapping a value that holds another variant fails with that very value.
pub proof fn lemma_mismatch_returns_value<P>(variant: usize, value: Tagged<P>)
    requires
        value.variant != variant,
    ensures
        unwrap_spec(variant, value) == Err::<P, Tagged<P>>(value),
{
}

} // verus!
