use vstd::prelude::*;
use vstd::string::StringExecFns;
use crate::model::{ConversionDescriptor, FieldName, Generics};

verus! {

/// The `TryFrom` impl of enum `e` for the payload `t` of its variant `v`,
/// whose field is reached by `f`: it hands the enum back unchanged when
/// another variant is held.
pub open spec fn try_from_text(e: Seq<char>, g: Generics, v: Seq<char>, f: Seq<char>, t: Seq<char>) -> Seq<char> {
    let ig = g.impl_generics@;
    let tg = g.ty_generics@;
    let wc = g.where_clause@;
    "#[automatically_derived] impl"@ + ig + " ::std::convert::TryFrom<"@ + e + tg + "> for "@ + t + " "@ + wc
        + " { type Error = "@ + e + tg + "; fn try_from(value: "@ + e + tg
        + ") -> ::std::result::Result<Self, Self::Error> { match value { "@ + e + "::"@ + v + " { "@ + f
        + ": t, .. } => ::std::result::Result::Ok(t), #[allow(unreachable_patterns)] _ => ::std::result::Result::Err(value), } } } "@
}

/// The `From` impl of the payload `t` for enum `e`, which builds variant `v`.
pub open spec fn from_text(e: Seq<char>, g: Generics, v: Seq<char>, f: Seq<char>, t: Seq<char>) -> Seq<char> {
    let ig = g.impl_generics@;
    let tg = g.ty_generics@;
    let wc = g.where_clause@;
    "#[automatically_derived] impl"@ + ig + " ::std::convert::From<"@ + t + "> for "@ + e + tg + " "@ + wc
        + " { fn from(value: "@ + t + ") -> Self { #[allow(clippy::init_numbered_fields)] "@ + e + "::"@ + v + " { "@
        + f + ": value } } } "@
}

/// The two impls that convert between enum `e` and the payload of its
/// variant `v`. Both repeat the enum's generics.
pub open spec fn conversion_text(e: Seq<char>, g: Generics, v: Seq<char>, f: Seq<char>, t: Seq<char>) -> Seq<char> {
    try_from_text(e, g, v, f, t) + from_text(e, g, v, f, t)
}

impl FieldName {
    /// The field as it is written in a pattern or a struct expression.
    pub fn to_text(&self) -> (r: String)
        ensures
            r@ == self.text(),
    {
        match self {
            FieldName::Index => {
                proof {
                    reveal_strlit("0");
                }
                String::from_str("0")
            },
            FieldName::Ident(s) => s.clone(),
        }
    }
}

/// Writes the conversions of one variant of the enum `enum_ident`.
pub fn mk_impls(enum_ident: &String, generics: &Generics, d: &ConversionDescriptor) -> (r: String)
    ensures
        r@ == conversion_text(enum_ident@, *generics, d.variant_name@, d.accessor.text(), d.payload_type@),
{
    let e = enum_ident.as_str();
    let ig = generics.impl_generics.as_str();
    let tg = generics.ty_generics.as_str();
    let wc = generics.where_clause.as_str();
    let v = d.variant_name.as_str();
    let fs = d.accessor.to_text();
    let f = fs.as_str();
    let t = d.payload_type.as_str();
    let mut out = String::from_str("#[automatically_derived] impl");
    out.append(ig);
    out.append(" ::std::convert::TryFrom<");
    out.append(e);
    out.append(tg);
    out.append("> for ");
    out.append(t);
    out.append(" ");
    out.append(wc);
    out.append(" { type Error = ");
    out.append(e);
    out.append(tg);
    out.append("; fn try_from(value: ");
    out.append(e);
    out.append(tg);
    out.append(") -> ::std::result::Result<Self, Self::Error> { match value { ");
    out.append(e);
    out.append("::");
    out.append(v);
    out.append(" { ");
    out.append(f);
    out.append(
        ": t, .. } => ::std::result::Result::Ok(t), #[allow(unreachable_patterns)] _ => ::std::result::Result::Err(value), } } } ",
    );
    out.append("#[automatically_derived] impl");
    out.append(ig);
    out.append(" ::std::convert::From<");
    out.append(t);
    out.append("> for ");
    out.append(e);
    out.append(tg);
    out.append(" ");
    out.append(wc);
    out.append(" { fn from(value: ");
    out.append(t);
    out.append(") -> Self { #[allow(clippy::init_numbered_fields)] ");
    out.append(e);
    out.append("::");
    out.append(v);
    out.append(" { ");
    out.append(f);
    out.append(": value } } } ");
    assert(out@ =~= conversion_text(enum_ident@, *generics, d.variant_name@, d.accessor.text(), d.payload_type@));
    out
}

} // verus!
