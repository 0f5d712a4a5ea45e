use vstd::prelude::*;
use crate::diagnostic::{message_text, Diagnostic, ErrorKind, Location};
use crate::emit::{conversion_text, from_text, try_from_text};
use crate::generate::{code_upto, diagnostics_upto, generation, variant_code};
use crate::model::{convertible, shape_of, Generics, Shape, TypeDef, Variant};
use crate::tagged::{unwrap_spec, Tagged};
use crate::validate::variant_diagnostic;

verus! {

/// `x` stands somewhere in `s` as a contiguous piece.
pub open spec fn is_infix(x: Seq<char>, s: Seq<char>) -> bool {
    exists|k: int| 0 <= k && k + x.len() <= s.len() && #[trigger] s.subrange(k, k + x.len()) == x
}

proof fn lemma_diagnostic_kept(vs: Seq<Variant>, i: int, n: nat)
    requires
        0 <= i < n <= vs.len(),
        variant_diagnostic(vs[i], i as usize) is Some,
    ensures
        diagnostics_upto(vs, n).contains(variant_diagnostic(vs[i], i as usize)->0),
    decreases n,
{
    let d = variant_diagnostic(vs[i], i as usize)->0;
    if i == n - 1 {
        let prev = diagnostics_upto(vs, (n - 1) as nat);
        assert(diagnostics_upto(vs, n) == prev.push(d));
        assert(prev.push(d)[prev.len() as int] == d);
    } else {
        lemma_diagnostic_kept(vs, i, (n - 1) as nat);
        let prev = diagnostics_upto(vs, (n - 1) as nat);
        let k = choose|k: int| 0 <= k < prev.len() && prev[k] == d;
        match variant_diagnostic(vs[n - 1], (n - 1) as usize) {
            Some(x) => {
                assert(prev.push(x)[k] == d);
            },
            None => {},
        }
    }
}

proof fn lemma_skip_unchanged_upto(e: Seq<char>, g: Generics, vs: Seq<Variant>, i: int, w: Variant, n: nat)
    requires
        0 <= i < vs.len(),
        n <= vs.len(),
        vs[i].skip,
        w.skip,
    ensures
        code_upto(e, g, vs.update(i, w), n) == code_upto(e, g, vs, n),
        diagnostics_upto(vs.update(i, w), n) == diagnostics_upto(vs, n),
    decreases n,
{
    if n > 0 {
        lemma_skip_unchanged_upto(e, g, vs, i, w, (n - 1) as nat);
    }
}

/// A skipped variant contributes neither code nor a diagnostic, whatever its
/// fields: putting any other skipped variant in its place changes nothing.
pub proof fn lemma_skip_exclusion(e: Seq<char>, g: Generics, vs: Seq<Variant>, i: int, w: Variant)
    requires
        0 <= i < vs.len(),
        vs[i].skip,
        w.skip,
    ensures
        variant_code(e, g, vs[i]) == Seq::<char>::empty(),
        variant_diagnostic(vs[i], i as usize) is None,
        code_upto(e, g, vs.update(i, w), vs.len()) == code_upto(e, g, vs, vs.len()),
        diagnostics_upto(vs.update(i, w), vs.len()) == diagnostics_upto(vs, vs.len()),
{
    lemma_skip_unchanged_upto(e, g, vs, i, w, vs.len());
}

/// A unit variant that is not skipped makes generation fail, with a
/// diagnostic on that variant's name whose message points to the marker
/// that skips it.
pub proof fn lemma_unit_rejected(def: TypeDef, i: int)
    requires
        def.data is Enum,
        0 <= i < def.data->Enum_0@.len(),
        !def.data->Enum_0@[i].skip,
        shape_of(def.data->Enum_0@[i].fields) == Shape::Unit,
    ensures
        generation(def) is Err,
        generation(def)->Err_0.contains(Diagnostic { kind: ErrorKind::UnitVariant, location: Location::VariantName(i as usize) }),
        is_infix("#[enumorph(ignore)]"@, message_text(ErrorKind::UnitVariant)),
{
    let vs = def.data->Enum_0@;
    let m = message_text(ErrorKind::UnitVariant);
    let marker = "#[enumorph(ignore)]"@;
    reveal_strlit("#[enumorph(ignore)]");
    reveal_strlit("unit variants don't have any data to convert to/from; try `#[enumorph(ignore)]`-ing it");
    assert(m.subrange(59, 59 + marker.len() as int) =~= marker);
    lemma_diagnostic_kept(vs, i, vs.len());
}

/// A variant with two or more fields that is not skipped makes generation
/// fail, with a diagnostic on that variant's fields.
pub proof fn lemma_multi_field_rejected(def: TypeDef, i: int)
    requires
        def.data is Enum,
        0 <= i < def.data->Enum_0@.len(),
        !def.data->Enum_0@[i].skip,
        shape_of(def.data->Enum_0@[i].fields) == Shape::Multi,
    ensures
        generation(def) is Err,
        generation(def)->Err_0.contains(Diagnostic { kind: ErrorKind::MultiField, location: Location::VariantFields(i as usize) }),
{
    let vs = def.data->Enum_0@;
    lemma_diagnostic_kept(vs, i, vs.len());
}

/// An enum with one convertible variant gets exactly that variant's pair of
/// conversions, and unwrapping any of its values succeeds.
pub proof fn lemma_single_variant<P>(def: TypeDef, value: Tagged<P>)
    requires
        def.data is Enum,
        def.data->Enum_0@.len() == 1,
        convertible(def.data->Enum_0@[0]),
        value.variant < 1,
    ensures
        generation(def) == Ok::<Seq<char>, Seq<Diagnostic>>(variant_code(def.name@, def.generics, def.data->Enum_0@[0])),
        unwrap_spec(0, value) == Ok::<P, Tagged<P>>(value.payload),
{
    let vs = def.data->Enum_0@;
    assert(diagnostics_upto(vs, 0) == Seq::<Diagnostic>::empty());
    assert(code_upto(def.name@, def.generics, vs, 0) == Seq::<char>::empty());
    assert(diagnostics_upto(vs, 1) =~= Seq::<Diagnostic>::empty());
    assert(code_upto(def.name@, def.generics, vs, 1) =~= variant_code(def.name@, def.generics, vs[0]));
}

/// Both generated impls repeat the enum's generic parameters and its `where`
/// clause unchanged, so a payload type that breaks a bound is refused by the
/// compiler rather than accepted.
pub proof fn lemma_generics_forwarded(e: Seq<char>, g: Generics, v: Seq<char>, f: Seq<char>, t: Seq<char>)
    ensures
        conversion_text(e, g, v, f, t) == try_from_text(e, g, v, f, t) + from_text(e, g, v, f, t),
        is_infix(g.impl_generics@, try_from_text(e, g, v, f, t)),
        is_infix(g.where_clause@, try_from_text(e, g, v, f, t)),
        is_infix(g.impl_generics@, from_text(e, g, v, f, t)),
        is_infix(g.where_clause@, from_text(e, g, v, f, t)),
{
    let ig = g.impl_generics@;
    let tg = g.ty_generics@;
    let wc = g.where_clause@;
    let tf = try_from_text(e, g, v, f, t);
    let fr = from_text(e, g, v, f, t);
    let a = "#[automatically_derived] impl"@;
    let k1 = a.len() as int;
    assert(tf.subrange(k1, k1 + ig.len()) =~= ig);
    let k2 = (a + ig + " ::std::convert::TryFrom<"@ + e + tg + "> for "@ + t + " "@).len() as int;
    assert(tf.subrange(k2, k2 + wc.len()) =~= wc);
    assert(fr.subrange(k1, k1 + ig.len()) =~= ig);
    let k3 = (a + ig + " ::std::convert::From<"@ + t + "> for "@ + e + tg + " "@).len() as int;
    assert(fr.subrange(k3, k3 + wc.len()) =~= wc);
}

} // verus!
