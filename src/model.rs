use vstd::prelude::*;

verus! {

/// The generic parameters of a type, already split into the three places
/// where an impl block repeats them. They are carried as text and never read.
pub struct Generics {
    /// Parameters with their bounds, as written after `impl`.
    pub impl_generics: String,
    /// Parameters alone, as written after the type's name.
    pub ty_generics: String,
    /// The `where` clause, or nothing.
    pub where_clause: String,
}

/// A field of a variant with braces.
pub struct NamedField {
    pub name: String,
    pub ty: String,
}

/// The fields of a variant as they were declared.
pub enum Fields {
    Named(Vec<NamedField>),
    /// The types of the fields of a tuple variant, in order.
    Unnamed(Vec<String>),
    Unit,
}

/// One variant of an enum definition.
pub struct Variant {
    pub name: String,
    pub fields: Fields,
    /// True when the variant carries the `#[enumorph(ignore)]` marker.
    pub skip: bool,
}

/// What kind of type a definition declares.
pub enum Data {
    Struct,
    Enum(Vec<Variant>),
    Union,
}

/// A type definition, as the derive receives it.
pub struct TypeDef {
    pub name: String,
    pub generics: Generics,
    pub data: Data,
}

/// How many fields a variant has.
#[derive(PartialEq, Eq, Structural, Clone, Copy, Debug)]
pub enum Shape {
    Unit,
    Single,
    Multi,
}

/// How the generated code reaches the payload of a variant.
pub enum FieldName {
    /// The one field of a tuple variant, written `0`.
    Index,
    /// The one field of a variant with braces.
    Ident(String),
}

/// What is needed to convert between an enum and the payload of one variant.
pub struct ConversionDescriptor {
    pub variant_name: String,
    pub accessor: FieldName,
    pub payload_type: String,
}

pub open spec fn shape_of(f: Fields) -> Shape {
    match f {
        Fields::Named(v) => if v@.len() == 0 {
            Shape::Unit
        } else if v@.len() == 1 {
            Shape::Single
        } else {
            Shape::Multi
        },
        Fields::Unnamed(v) => if v@.len() == 0 {
            Shape::Unit
        } else if v@.len() == 1 {
            Shape::Single
        } else {
            Shape::Multi
        },
        Fields::Unit => Shape::Unit,
    }
}

/// A variant gets conversions when it is not skipped and has exactly one field.
pub open spec fn convertible(v: Variant) -> bool {
    !v.skip && shape_of(v.fields) == Shape::Single
}

/// The text that names the payload field of a single-field variant.
pub open spec fn accessor_text(f: Fields) -> Seq<char> {
    match f {
        Fields::Named(v) => v@[0].name@,
        _ => seq!['0'],
    }
}

/// The type of the payload of a single-field variant.
pub open spec fn payload_type_of(f: Fields) -> Seq<char> {
    match f {
        Fields::Named(v) => v@[0].ty@,
        Fields::Unnamed(v) => v@[0]@,
        Fields::Unit => Seq::empty(),
    }
}

impl FieldName {
    pub open spec fn text(&self) -> Seq<char> {
        match self {
            FieldName::Index => seq!['0'],
            FieldName::Ident(s) => s@,
        }
    }
}

impl ConversionDescriptor {
    /// The descriptor holds what the variant declares.
    pub open spec fn describes(&self, v: Variant) -> bool {
        &&& self.variant_name@ == v.name@
        &&& (self.accessor is Ident <==> v.fields is Named)
        &&& self.accessor.text() == accessor_text(v.fields)
        &&& self.payload_type@ == payload_type_of(v.fields)
    }
}

impl Fields {
    pub fn shape(&self) -> (r: Shape)
        ensures
            r == shape_of(*self),
    {
        let n: usize = match self {
            Fields::Named(v) => v.len(),
            Fields::Unnamed(v) => v.len(),
            Fields::Unit => 0,
        };
        if n == 0 {
            Shape::Unit
        } else if n == 1 {
            Shape::Single
        } else {
            Shape::Multi
        }
    }
}

} // verus!
