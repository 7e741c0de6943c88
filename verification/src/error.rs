use vstd::prelude::*;

verus! {

/// Failures of the catalog model. Lookup failures (`NotFound`,
/// `Ambiguous`) ask the caller to disambiguate; the remaining variants
/// are catalog desyncs or unsupported catalog features, fatal to a
/// scan.
#[derive(Debug, PartialEq, Eq)]
pub enum SchemaError {
    /// A catalog lookup that must match exactly one row matched none.
    NotFound,
    /// A catalog lookup that must match exactly one row matched more
    /// than one.
    Ambiguous,
    /// A declared type name outside the supported scalar vocabulary.
    UnknownScalarName(String),
    /// A catalog kind tag outside the supported vocabulary.
    UnsupportedCatalogType(i8),
    /// A constraint row names a column the scan never produced.
    UnknownColumn(String),
    /// A constraint kind outside the supported vocabulary.
    UnknownConstraintType(String),
    /// A foreign key over more than one column.
    CompositeForeignKey,
    /// A column both nullable and carrying a default value.
    NullAndDefault,
}

impl SchemaError {
    /// A short label for each failure, for callers that report errors
    /// as text.
    pub fn describe(&self) -> (r: &'static str)
        ensures
            (*self is NotFound) ==> r@ == "no catalog row found"@,
            (*self is Ambiguous) ==> r@ == "multiple catalog rows found"@,
            (*self is UnknownScalarName) ==> r@ == "unknown scalar type name"@,
            (*self is UnsupportedCatalogType) ==> r@ == "unsupported catalog type kind"@,
            (*self is UnknownColumn) ==> r@ == "constraint for unknown column"@,
            (*self is UnknownConstraintType) ==> r@ == "unknown constraint type"@,
            (*self is CompositeForeignKey) ==> r@ == "unsupported composite foreign key"@,
            (*self is NullAndDefault) ==> r@ == "column is both nullable and takes a default value"@,
    {
        match self {
            SchemaError::NotFound => "no catalog row found",
            SchemaError::Ambiguous => "multiple catalog rows found",
            SchemaError::UnknownScalarName(_) => "unknown scalar type name",
            SchemaError::UnsupportedCatalogType(_) => "unsupported catalog type kind",
            SchemaError::UnknownColumn(_) => "constraint for unknown column",
            SchemaError::UnknownConstraintType(_) => "unknown constraint type",
            SchemaError::CompositeForeignKey => "unsupported composite foreign key",
            SchemaError::NullAndDefault => "column is both nullable and takes a default value",
        }
    }
}

} // verus!
