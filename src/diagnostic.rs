use vstd::prelude::*;

verus! {

/// Why a definition cannot get conversions.
#[derive(PartialEq, Eq, Structural, Clone, Copy, Debug)]
pub enum ErrorKind {
    /// The definition is a struct or a union, not an enum.
    NotAnEnum,
    /// The definition is an enum without variants.
    NoVariants,
    /// A variant that is not skipped has no field.
    UnitVariant,
    /// A variant that is not skipped has more than one field.
    MultiField,
}

/// Where in the definition a diagnostic points.
#[derive(PartialEq, Eq, Structural, Clone, Copy, Debug)]
pub enum Location {
    /// The `struct`, `enum` or `union` keyword of the definition.
    TypeKeyword,
    /// The name of the variant at this position.
    VariantName(usize),
    /// The field list of the variant at this position.
    VariantFields(usize),
}

/// One error, with the place it points at.
#[derive(PartialEq, Eq, Structural, Clone, Copy, Debug)]
pub struct Diagnostic {
    pub kind: ErrorKind,
    pub location: Location,
}

/// The errors of one run of the generator, in the order of the variants.
pub struct Report {
    pub diagnostics: Vec<Diagnostic>,
}

impl ErrorKind {
    /// The two kinds that stop generation before any variant is read.
    pub open spec fn is_shape_error(self) -> bool {
        self == ErrorKind::NotAnEnum || self == ErrorKind::NoVariants
    }

    pub fn is_shape(&self) -> (r: bool)
        ensures
            r == self.is_shape_error(),
    {
        match self {
            ErrorKind::NotAnEnum | ErrorKind::NoVariants => true,
            _ => false,
        }
    }
}

pub open spec fn message_text(k: ErrorKind) -> Seq<char> {
    match k {
        ErrorKind::NotAnEnum => "enum conversions only work on enums"@,
        ErrorKind::NoVariants => "enum conversions need at least one variant"@,
        ErrorKind::UnitVariant =>
            "unit variants don't have any data to convert to/from; try `#[enumorph(ignore)]`-ing it"@,
        ErrorKind::MultiField => "only variants with one field are supported"@,
    }
}

impl Diagnostic {
    /// The message shown to the user for this diagnostic.
    pub fn message(&self) -> (r: &'static str)
        ensures
            r@ == message_text(self.kind),
    {
        match self.kind {
            ErrorKind::NotAnEnum => "enum conversions only work on enums",
            ErrorKind::NoVariants => "enum conversions need at least one variant",
            ErrorKind::UnitVariant =>
                "unit variants don't have any data to convert to/from; try `#[enumorph(ignore)]`-ing it",
            ErrorKind::MultiField => "only variants with one field are supported",
        }
    }
}

impl Report {
    /// The number of errors in the report.
    pub fn len(&self) -> (r: usize)
        ensures
            r == self.diagnostics@.len(),
    {
        self.diagnostics.len()
    }
}

} // verus!
