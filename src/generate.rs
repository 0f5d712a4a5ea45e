use vstd::prelude::*;
use vstd::string::StringExecFns;
use crate::diagnostic::{Diagnostic, ErrorKind, Location, Report};
use crate::emit::{conversion_text, mk_impls};
use crate::model::{accessor_text, convertible, payload_type_of, Data, Generics, TypeDef, Variant};
use crate::validate::{validate_variant, variant_diagnostic};

verus! {

/// The code generated for one variant: its conversions when it is convertible,
/// else nothing.
pub open spec fn variant_code(e: Seq<char>, g: Generics, v: Variant) -> Seq<char> {
    if convertible(v) {
        conversion_text(e, g, v.name@, accessor_text(v.fields), payload_type_of(v.fields))
    } else {
        Seq::empty()
    }
}

/// The code of the first `n` variants, in declaration order.
pub open spec fn code_upto(e: Seq<char>, g: Generics, vs: Seq<Variant>, n: nat) -> Seq<char>
    decreases n,
{
    if n == 0 {
        Seq::empty()
    } else {
        code_upto(e, g, vs, (n - 1) as nat) + variant_code(e, g, vs[n - 1])
    }
}

/// The diagnostics of the first `n` variants, in declaration order.
pub open spec fn diagnostics_upto(vs: Seq<Variant>, n: nat) -> Seq<Diagnostic>
    decreases n,
{
    if n == 0 {
        Seq::empty()
    } else {
        let d = diagnostics_upto(vs, (n - 1) as nat);
        match variant_diagnostic(vs[n - 1], (n - 1) as usize) {
            Some(x) => d.push(x),
            None => d,
        }
    }
}

/// What generation yields for a definition: an error alone for anything but
/// an enum with variants; else every diagnostic of the variants when there is
/// one, and otherwise the conversions of all convertible variants.
pub open spec fn generation(def: TypeDef) -> Result<Seq<char>, Seq<Diagnostic>> {
    match def.data {
        Data::Enum(vs) => if vs@.len() == 0 {
            Err(seq![Diagnostic { kind: ErrorKind::NoVariants, location: Location::TypeKeyword }])
        } else if diagnostics_upto(vs@, vs@.len()).len() > 0 {
            Err(diagnostics_upto(vs@, vs@.len()))
        } else {
            Ok(code_upto(def.name@, def.generics, vs@, vs@.len()))
        },
        _ => Err(seq![Diagnostic { kind: ErrorKind::NotAnEnum, location: Location::TypeKeyword }]),
    }
}

/// Derives the conversions between an enum and the payloads of its variants,
/// or reports every reason why it cannot.
pub fn enumorph(def: &TypeDef) -> (r: Result<String, Report>)
    ensures
        r matches Ok(s) ==> generation(*def) == Ok::<Seq<char>, Seq<Diagnostic>>(s@),
        r matches Err(rep) ==> generation(*def) == Err::<Seq<char>, Seq<Diagnostic>>(rep.diagnostics@),
        r matches Err(rep) ==> rep.diagnostics@.len() > 0,
{
    let vs = match &def.data {
        Data::Enum(vs) => vs,
        _ => {
            let d = Diagnostic { kind: ErrorKind::NotAnEnum, location: Location::TypeKeyword };
            let r = Report { diagnostics: vec![d] };
            assert(r.diagnostics@ =~= seq![d]);
            return Err(r);
        },
    };
    if vs.len() == 0 {
        let d = Diagnostic { kind: ErrorKind::NoVariants, location: Location::TypeKeyword };
        let r = Report { diagnostics: vec![d] };
        assert(r.diagnostics@ =~= seq![d]);
        return Err(r);
    }
    let mut code = String::new();
    let mut diagnostics: Vec<Diagnostic> = Vec::new();
    let mut i: usize = 0;
    while i < vs.len()
        invariant
            0 <= i <= vs@.len(),
            code@ == code_upto(def.name@, def.generics, vs@, i as nat),
            diagnostics@ == diagnostics_upto(vs@, i as nat),
        decreases vs@.len() - i,
    {
        match validate_variant(&vs[i], i) {
            Some(Ok(d)) => {
                let s = mk_impls(&def.name, &def.generics, &d);
                code.append(s.as_str());
            },
            Some(Err(e)) => {
                diagnostics.push(e);
            },
            None => {},
        }
        i = i + 1;
    }
    if diagnostics.len() > 0 {
        Err(Report { diagnostics })
    } else {
        Ok(code)
    }
}

} // verus!
