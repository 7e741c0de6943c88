use vstd::prelude::*;

use crate::casing::{camel_of, snake_of, to_snake_case, to_upper_camel_case};
use crate::error::SchemaError;
use crate::strutil::{lemma_seq_ne_at, lemma_seq_ne_len, str_eq};

verus! {

/// The builtin scalar kinds of the catalog's type vocabulary.
#[derive(Debug, PartialEq, Eq, Clone, Copy)]
pub enum ScalarType {
    Bool,
    Int2,
    Int4,
    Int8,
    Float4,
    Float8,
    Text,
    Bytea,
    Timestamp,
    TimestampTz,
    Uuid,
    Inet,
    Interval,
    Jsonb,
    Vector,
}

/// Reference to a named composite (record) type of the catalog. The
/// field list is not inlined here: it is resolved separately, so that
/// mutually-referential composite types terminate as repeated
/// references instead of repeated resolution.
#[derive(Debug, PartialEq, Eq)]
pub struct CompositeRef {
    pub name: String,
}

/// Reference to a named enumeration type of the catalog; the variant
/// labels are resolved separately.
#[derive(Debug, PartialEq, Eq)]
pub struct EnumRef {
    pub name: String,
}

/// A closed type of the data model: a builtin scalar, an array of an
/// already-resolved type, or a reference to a named composite or
/// enumeration type. Resolution always terminates in one of these; an
/// `Array` never wraps an unresolved placeholder.
#[derive(Debug, PartialEq, Eq)]
pub enum Type {
    Array(Box<Type>),
    Builtin(ScalarType),
    Composite(CompositeRef),
    Enum(EnumRef),
}

/// The scalar type declared by a type name, if the name belongs to the
/// supported vocabulary. This finite lookup is the base case of all
/// type resolution and performs no catalog access.
pub open spec fn from_name_spec(s: Seq<char>) -> Option<Type> {
    if s == "vector"@ || s == "tsvector"@ {
        Some(Type::Builtin(ScalarType::Vector))
    } else if s == "bigint"@ {
        Some(Type::Builtin(ScalarType::Int8))
    } else if s == "boolean"@ {
        Some(Type::Builtin(ScalarType::Bool))
    } else if s == "bytea"@ {
        Some(Type::Builtin(ScalarType::Bytea))
    } else if s == "bytea[]"@ {
        Some(Type::Array(Box::new(Type::Builtin(ScalarType::Bytea))))
    } else if s == "float4"@ || s == "real"@ {
        Some(Type::Builtin(ScalarType::Float4))
    } else if s == "float8"@ || s == "double precision"@ {
        Some(Type::Builtin(ScalarType::Float8))
    } else if s == "inet"@ {
        Some(Type::Builtin(ScalarType::Inet))
    } else if s == "smallint"@ || s == "int2"@ {
        Some(Type::Builtin(ScalarType::Int2))
    } else if s == "integer"@ || s == "int4"@ {
        Some(Type::Builtin(ScalarType::Int4))
    } else if s == "interval"@ {
        Some(Type::Builtin(ScalarType::Interval))
    } else if s == "jsonb"@ {
        Some(Type::Builtin(ScalarType::Jsonb))
    } else if s == "text"@ || s == "character varying"@ {
        Some(Type::Builtin(ScalarType::Text))
    } else if s == "text[]"@ {
        Some(Type::Array(Box::new(Type::Builtin(ScalarType::Text))))
    } else if s == "timestamp with time zone"@ {
        Some(Type::Builtin(ScalarType::TimestampTz))
    } else if s == "timestamp without time zone"@ {
        Some(Type::Builtin(ScalarType::Timestamp))
    } else if s == "uuid"@ {
        Some(Type::Builtin(ScalarType::Uuid))
    } else {
        None
    }
}

/// The target-language type text a resolved type renders to.
pub open spec fn type_text(t: Type) -> Seq<char>
    decreases t,
{
    match t {
        Type::Array(inner) => "Vec<"@ + type_text(*inner) + ">"@,
        Type::Builtin(k) => match k {
            ScalarType::Bool => "bool"@,
            ScalarType::Int2 => "i16"@,
            ScalarType::Int4 => "i32"@,
            ScalarType::Int8 => "i64"@,
            ScalarType::Float4 => "f32"@,
            ScalarType::Float8 => "f64"@,
            ScalarType::Text => "String"@,
            ScalarType::Bytea => "Vec<u8>"@,
            ScalarType::Timestamp => "chrono::naive::NaiveDateTime"@,
            ScalarType::TimestampTz => "chrono::DateTime<chrono::Utc>"@,
            ScalarType::Uuid => "uuid::Uuid"@,
            ScalarType::Inet => "std::net::IpAddr"@,
            ScalarType::Interval => "PgInterval"@,
            ScalarType::Jsonb => "JsonB"@,
            ScalarType::Vector => "pgvector::Vector"@,
        },
        Type::Composite(c) => camel_of(c.name@),
        Type::Enum(e) => camel_of(e.name@),
    }
}

/// Whether a value of this type is passed by value: fixed-width
/// scalars are, composites, arrays and all variable-length scalars
/// never are.
pub open spec fn is_copy_spec(t: Type) -> bool {
    match t {
        Type::Builtin(k) => match k {
            ScalarType::Bool
            | ScalarType::Int2
            | ScalarType::Int4
            | ScalarType::Int8
            | ScalarType::Float4
            | ScalarType::Float8
            | ScalarType::Timestamp
            | ScalarType::TimestampTz
            | ScalarType::Uuid
            | ScalarType::Inet
            | ScalarType::Interval => true,
            ScalarType::Text
            | ScalarType::Bytea
            | ScalarType::Jsonb
            | ScalarType::Vector => false,
        },
        Type::Array(_) => false,
        Type::Composite(_) => false,
        Type::Enum(_) => false,
    }
}

impl Type {
    /// Parses a declared type name into its scalar (or name-declared
    /// array) type: a pure, finite lookup with no catalog access.
    pub fn from_name(name: &str) -> (r: Result<Type, SchemaError>)
        ensures
            match from_name_spec(name@) {
                Some(t) => r == Ok::<Type, SchemaError>(t),
                None => r matches Err(e) && e matches SchemaError::UnknownScalarName(n)
                    && n@ == name@,
            },
    {
        if str_eq(name, "vector") || str_eq(name, "tsvector") {
            Ok(Type::Builtin(ScalarType::Vector))
        } else if str_eq(name, "bigint") {
            Ok(Type::Builtin(ScalarType::Int8))
        } else if str_eq(name, "boolean") {
            Ok(Type::Builtin(ScalarType::Bool))
        } else if str_eq(name, "bytea") {
            Ok(Type::Builtin(ScalarType::Bytea))
        } else if str_eq(name, "bytea[]") {
            Ok(Type::Array(Box::new(Type::Builtin(ScalarType::Bytea))))
        } else if str_eq(name, "float4") || str_eq(name, "real") {
            Ok(Type::Builtin(ScalarType::Float4))
        } else if str_eq(name, "float8") || str_eq(name, "double precision") {
            Ok(Type::Builtin(ScalarType::Float8))
        } else if str_eq(name, "inet") {
            Ok(Type::Builtin(ScalarType::Inet))
        } else if str_eq(name, "smallint") || str_eq(name, "int2") {
            Ok(Type::Builtin(ScalarType::Int2))
        } else if str_eq(name, "integer") || str_eq(name, "int4") {
            Ok(Type::Builtin(ScalarType::Int4))
        } else if str_eq(name, "interval") {
            Ok(Type::Builtin(ScalarType::Interval))
        } else if str_eq(name, "jsonb") {
            Ok(Type::Builtin(ScalarType::Jsonb))
        } else if str_eq(name, "text") || str_eq(name, "character varying") {
            Ok(Type::Builtin(ScalarType::Text))
        } else if str_eq(name, "text[]") {
            Ok(Type::Array(Box::new(Type::Builtin(ScalarType::Text))))
        } else if str_eq(name, "timestamp with time zone") {
            Ok(Type::Builtin(ScalarType::TimestampTz))
        } else if str_eq(name, "timestamp without time zone") {
            Ok(Type::Builtin(ScalarType::Timestamp))
        } else if str_eq(name, "uuid") {
            Ok(Type::Builtin(ScalarType::Uuid))
        } else {
            Err(SchemaError::UnknownScalarName(String::from_str(name)))
        }
    }

    /// The builtin scalar (or array of scalars) a well-known catalog
    /// object id denotes, so that resolution by id can avoid a catalog
    /// query for the common cases.
    pub fn from_known_oid(oid: u32) -> (r: Option<Type>)
        ensures
            r == from_oid_spec(oid),
    {
        match oid {
            16u32 => Some(Type::Builtin(ScalarType::Bool)),
            17u32 => Some(Type::Builtin(ScalarType::Bytea)),
            20u32 => Some(Type::Builtin(ScalarType::Int8)),
            21u32 => Some(Type::Builtin(ScalarType::Int2)),
            23u32 => Some(Type::Builtin(ScalarType::Int4)),
            25u32 => Some(Type::Builtin(ScalarType::Text)),
            700u32 => Some(Type::Builtin(ScalarType::Float4)),
            701u32 => Some(Type::Builtin(ScalarType::Float8)),
            869u32 => Some(Type::Builtin(ScalarType::Inet)),
            1001u32 => Some(Type::Array(Box::new(Type::Builtin(ScalarType::Bytea)))),
            1009u32 => Some(Type::Array(Box::new(Type::Builtin(ScalarType::Text)))),
            1043u32 => Some(Type::Builtin(ScalarType::Text)),
            1114u32 => Some(Type::Builtin(ScalarType::Timestamp)),
            1184u32 => Some(Type::Builtin(ScalarType::TimestampTz)),
            1186u32 => Some(Type::Builtin(ScalarType::Interval)),
            2950u32 => Some(Type::Builtin(ScalarType::Uuid)),
            3802u32 => Some(Type::Builtin(ScalarType::Jsonb)),
            _ => None,
        }
    }

    /// Renders the type to its target-language type text.
    pub fn render(&self) -> (r: String)
        ensures
            r@ == type_text(*self),
        decreases *self,
    {
        match self {
            Type::Array(inner) => {
                let mut r = String::from_str("Vec<");
                let inner_text = inner.render();
                r.append(inner_text.as_str());
                r.append(">");
                proof {
                    assert(r@ =~= type_text(*self));
                }
                r
            },
            Type::Builtin(k) => {
                let text = match k {
                    ScalarType::Bool => "bool",
                    ScalarType::Int2 => "i16",
                    ScalarType::Int4 => "i32",
                    ScalarType::Int8 => "i64",
                    ScalarType::Float4 => "f32",
                    ScalarType::Float8 => "f64",
                    ScalarType::Text => "String",
                    ScalarType::Bytea => "Vec<u8>",
                    ScalarType::Timestamp => "chrono::naive::NaiveDateTime",
                    ScalarType::TimestampTz => "chrono::DateTime<chrono::Utc>",
                    ScalarType::Uuid => "uuid::Uuid",
                    ScalarType::Inet => "std::net::IpAddr",
                    ScalarType::Interval => "PgInterval",
                    ScalarType::Jsonb => "JsonB",
                    ScalarType::Vector => "pgvector::Vector",
                };
                String::from_str(text)
            },
            Type::Composite(c) => to_upper_camel_case(c.name.as_str()),
            Type::Enum(e) => to_upper_camel_case(e.name.as_str()),
        }
    }

    /// Whether a value of this type is passed by value. Enumeration
    /// references are outside this predicate's domain.
    pub fn is_copy(&self) -> (r: bool)
        requires
            !(*self is Enum),
        ensures
            r == is_copy_spec(*self),
    {
        match self {
            Type::Builtin(k) => match k {
                ScalarType::Bool
                | ScalarType::Int2
                | ScalarType::Int4
                | ScalarType::Int8
                | ScalarType::Float4
                | ScalarType::Float8
                | ScalarType::Timestamp
                | ScalarType::TimestampTz
                | ScalarType::Uuid
                | ScalarType::Inet
                | ScalarType::Interval => true,
                _ => false,
            },
            _ => false,
        }
    }
}

/// The builtin scalar (or array) type for a well-known catalog object
/// id.
pub open spec fn from_oid_spec(oid: u32) -> Option<Type> {
    if oid == 16 {
        Some(Type::Builtin(ScalarType::Bool))
    } else if oid == 17 {
        Some(Type::Builtin(ScalarType::Bytea))
    } else if oid == 20 {
        Some(Type::Builtin(ScalarType::Int8))
    } else if oid == 21 {
        Some(Type::Builtin(ScalarType::Int2))
    } else if oid == 23 {
        Some(Type::Builtin(ScalarType::Int4))
    } else if oid == 25 {
        Some(Type::Builtin(ScalarType::Text))
    } else if oid == 700 {
        Some(Type::Builtin(ScalarType::Float4))
    } else if oid == 701 {
        Some(Type::Builtin(ScalarType::Float8))
    } else if oid == 869 {
        Some(Type::Builtin(ScalarType::Inet))
    } else if oid == 1001 {
        Some(Type::Array(Box::new(Type::Builtin(ScalarType::Bytea))))
    } else if oid == 1009 {
        Some(Type::Array(Box::new(Type::Builtin(ScalarType::Text))))
    } else if oid == 1043 {
        Some(Type::Builtin(ScalarType::Text))
    } else if oid == 1114 {
        Some(Type::Builtin(ScalarType::Timestamp))
    } else if oid == 1184 {
        Some(Type::Builtin(ScalarType::TimestampTz))
    } else if oid == 1186 {
        Some(Type::Builtin(ScalarType::Interval))
    } else if oid == 2950 {
        Some(Type::Builtin(ScalarType::Uuid))
    } else if oid == 3802 {
        Some(Type::Builtin(ScalarType::Jsonb))
    } else {
        None
    }
}

/// One row of the catalog's type table: object id, type name, kind
/// tag, owning relation id and element type id.
#[derive(Debug)]
pub struct CatalogTypeRow {
    pub oid: u32,
    pub name: String,
    pub kind_tag: i8,
    pub relation_id: u32,
    pub element_id: u32,
}

/// What one catalog type row resolves to: either a closed type, or a
/// request to resolve the row's element type by id first (the caller
/// wraps the result in an array).
#[derive(Debug, PartialEq, Eq)]
pub enum Resolution {
    Done(Type),
    Element(u32),
}

/// The catalog kind tag marking an array-capable base type.
pub const KIND_TAG_BASE: i8 = 98;

/// The catalog kind tag marking a composite type.
pub const KIND_TAG_COMPOSITE: i8 = 99;

/// The catalog kind tag marking an enumeration type.
pub const KIND_TAG_ENUM: i8 = 101;

impl Type {
    /// The resolution step for one catalog type row. A base-kind row
    /// without an element type falls back to name parsing; one with an
    /// element type asks the caller to resolve the element (and wrap
    /// it in an array); composite and enumeration rows resolve to
    /// references by name, never expanded here, so that
    /// mutually-referential composite graphs cannot cause unbounded
    /// recursion. Any other kind tag is unsupported.
    pub fn resolve_decision(row: &CatalogTypeRow) -> (r: Result<Resolution, SchemaError>)
        ensures
            row.kind_tag == KIND_TAG_BASE && row.element_id == 0 ==> match from_name_spec(
                row.name@,
            ) {
                Some(t) => r == Ok::<Resolution, SchemaError>(Resolution::Done(t)),
                None => r matches Err(e) && e matches SchemaError::UnknownScalarName(n)
                    && n@ == row.name@,
            },
            row.kind_tag == KIND_TAG_BASE && row.element_id != 0 ==> r == Ok::<
                Resolution,
                SchemaError,
            >(Resolution::Element(row.element_id)),
            row.kind_tag == KIND_TAG_COMPOSITE ==> (r matches Ok(res) && res matches
                Resolution::Done(t) && t matches Type::Composite(c) && c.name@ == row.name@),
            row.kind_tag == KIND_TAG_ENUM ==> (r matches Ok(res) && res matches Resolution::Done(
                t,
            ) && t matches Type::Enum(e) && e.name@ == row.name@),
            row.kind_tag != KIND_TAG_BASE && row.kind_tag != KIND_TAG_COMPOSITE && row.kind_tag
                != KIND_TAG_ENUM ==> r == Err::<Resolution, SchemaError>(
                SchemaError::UnsupportedCatalogType(row.kind_tag),
            ),
    {
        if row.kind_tag == KIND_TAG_BASE {
            if row.element_id == 0 {
                match Type::from_name(row.name.as_str()) {
                    Ok(t) => Ok(Resolution::Done(t)),
                    Err(e) => Err(e),
                }
            } else {
                Ok(Resolution::Element(row.element_id))
            }
        } else if row.kind_tag == KIND_TAG_COMPOSITE {
            Ok(Resolution::Done(Type::Composite(CompositeRef { name: row.name.clone() })))
        } else if row.kind_tag == KIND_TAG_ENUM {
            Ok(Resolution::Done(Type::Enum(EnumRef { name: row.name.clone() })))
        } else {
            Err(SchemaError::UnsupportedCatalogType(row.kind_tag))
        }
    }
}

/// Demands exactly one row from a catalog lookup: zero rows is a
/// `NotFound` failure and more than one is `Ambiguous`; the caller
/// must disambiguate its query predicate beforehand.
pub fn expect_single<T>(mut rows: Vec<T>) -> (r: Result<T, SchemaError>)
    ensures
        rows@.len() == 1 ==> (r matches Ok(v) && v == rows@[0]),
        rows@.len() == 0 ==> r == Err::<T, SchemaError>(SchemaError::NotFound),
        rows@.len() > 1 ==> r == Err::<T, SchemaError>(SchemaError::Ambiguous),
{
    if rows.len() == 1 {
        match rows.pop() {
            Some(v) => Ok(v),
            None => Err(SchemaError::NotFound),
        }
    } else if rows.len() == 0 {
        Err(SchemaError::NotFound)
    } else {
        Err(SchemaError::Ambiguous)
    }
}


/// A named composite (record) type definition: the name and the
/// ordered field list, in catalog order.
#[derive(Debug)]
pub struct Composite {
    pub name: String,
    pub fields: Vec<(String, Type)>,
}

/// The source text lines for a composite's fields, in field order.
pub open spec fn composite_fields_text(fields: Seq<(String, Type)>) -> Seq<char>
    decreases fields.len(),
{
    if fields.len() == 0 {
        Seq::empty()
    } else {
        composite_fields_text(fields.drop_last()) + "    "@ + snake_of(fields.last().0@) + ": "@
            + type_text(fields.last().1) + ",\n"@
    }
}

/// The source text a composite type definition renders to.
pub open spec fn composite_text(c: Composite) -> Seq<char> {
    "struct "@ + camel_of(c.name@) + " {\n"@ + composite_fields_text(c.fields@) + "}\n"@
}

impl Composite {
    /// A composite type definition with no fields yet.
    pub fn new(name: String) -> (r: Composite)
        ensures
            r.name == name,
            r.fields@ =~= Seq::<(String, Type)>::empty(),
    {
        Composite { name, fields: Vec::new() }
    }

    /// Appends one field; fields must be appended in catalog order.
    pub fn push_field(&mut self, name: String, ty: Type)
        ensures
            final(self).name == old(self).name,
            final(self).fields@ == old(self).fields@.push((name, ty)),
    {
        self.fields.push((name, ty));
    }

    /// Renders the composite to a record type definition, one line per
    /// field, in field order.
    pub fn render(&self) -> (r: String)
        ensures
            r@ == composite_text(*self),
    {
        let mut r = String::from_str("struct ");
        let camel = to_upper_camel_case(self.name.as_str());
        r.append(camel.as_str());
        r.append(" {\n");
        let ghost head = r@;
        let mut i: usize = 0;
        while i < self.fields.len()
            invariant
                i <= self.fields@.len(),
                head == "struct "@ + camel_of(self.name@) + " {\n"@,
                r@ == head + composite_fields_text(self.fields@.subrange(0, i as int)),
            decreases self.fields@.len() - i,
        {
            r.append("    ");
            let snake = to_snake_case(self.fields[i].0.as_str());
            r.append(snake.as_str());
            r.append(": ");
            let ty_text = self.fields[i].1.render();
            r.append(ty_text.as_str());
            r.append(",\n");
            proof {
                assert(self.fields@.subrange(0, i + 1).drop_last() =~= self.fields@.subrange(
                    0,
                    i as int,
                ));
                assert(self.fields@.subrange(0, i + 1).last() == self.fields@[i as int]);
                assert(r@ =~= head + composite_fields_text(self.fields@.subrange(0, i + 1)));
            }
            i += 1;
        }
        r.append("}\n");
        proof {
            assert(self.fields@.subrange(0, self.fields@.len() as int) =~= self.fields@);
            assert(r@ =~= composite_text(*self));
        }
        r
    }
}

/// A named enumeration type definition: the name and the ordered
/// variant labels, in the catalog's explicit sort order.
#[derive(Debug, PartialEq, Eq)]
pub struct Enum {
    pub name: String,
    pub variants: Vec<String>,
}

/// The source text lines for an enumeration's variants, in order.
pub open spec fn enum_variants_text(variants: Seq<String>) -> Seq<char>
    decreases variants.len(),
{
    if variants.len() == 0 {
        Seq::empty()
    } else {
        enum_variants_text(variants.drop_last()) + "    "@ + camel_of(variants.last()@) + ",\n"@
    }
}

/// The source text an enumeration type definition renders to.
pub open spec fn enum_text(e: Enum) -> Seq<char> {
    "enum "@ + camel_of(e.name@) + " {\n"@ + enum_variants_text(e.variants@) + "}\n"@
}

impl Enum {
    /// An enumeration type definition with no variants yet.
    pub fn new(name: String) -> (r: Enum)
        ensures
            r.name == name,
            r.variants@ =~= Seq::<String>::empty(),
    {
        Enum { name, variants: Vec::new() }
    }

    /// Appends one variant label; labels must be appended in the
    /// catalog's sort order, which is semantically significant.
    pub fn push_variant(&mut self, label: String)
        ensures
            final(self).name == old(self).name,
            final(self).variants@ == old(self).variants@.push(label),
    {
        self.variants.push(label);
    }

    /// Renders the enumeration to a variant-list type definition, one
    /// line per variant, in the catalog's sort order.
    pub fn render(&self) -> (r: String)
        ensures
            r@ == enum_text(*self),
    {
        let mut r = String::from_str("enum ");
        let camel = to_upper_camel_case(self.name.as_str());
        r.append(camel.as_str());
        r.append(" {\n");
        let ghost head = r@;
        let mut i: usize = 0;
        while i < self.variants.len()
            invariant
                i <= self.variants@.len(),
                head == "enum "@ + camel_of(self.name@) + " {\n"@,
                r@ == head + enum_variants_text(self.variants@.subrange(0, i as int)),
            decreases self.variants@.len() - i,
        {
            r.append("    ");
            let camel_variant = to_upper_camel_case(self.variants[i].as_str());
            r.append(camel_variant.as_str());
            r.append(",\n");
            proof {
                assert(self.variants@.subrange(0, i + 1).drop_last() =~= self.variants@.subrange(
                    0,
                    i as int,
                ));
                assert(self.variants@.subrange(0, i + 1).last() == self.variants@[i as int]);
                assert(r@ =~= head + enum_variants_text(self.variants@.subrange(0, i + 1)));
            }
            i += 1;
        }
        r.append("}\n");
        proof {
            assert(self.variants@.subrange(0, self.variants@.len() as int) =~= self.variants@);
            assert(r@ =~= enum_text(*self));
        }
        r
    }
}

/// A type definition produced when a column's type resolves to a
/// composite or enumeration reference.
#[derive(Debug)]
pub enum TypeDefinition {
    Composite(Composite),
    Enum(Enum),
}

/// The name a type definition is known by, used to deduplicate the
/// schema's definition list.
pub open spec fn type_def_name(td: TypeDefinition) -> Seq<char> {
    match td {
        TypeDefinition::Composite(c) => c.name@,
        TypeDefinition::Enum(e) => e.name@,
    }
}

/// The source text a type definition renders to.
pub open spec fn type_def_text(td: TypeDefinition) -> Seq<char> {
    match td {
        TypeDefinition::Composite(c) => composite_text(c),
        TypeDefinition::Enum(e) => enum_text(e),
    }
}

impl TypeDefinition {
    /// The name this definition is known by.
    pub fn def_name(&self) -> (r: &str)
        ensures
            r@ == type_def_name(*self),
    {
        match self {
            TypeDefinition::Composite(c) => c.name.as_str(),
            TypeDefinition::Enum(e) => e.name.as_str(),
        }
    }

    /// Renders the definition's source text.
    pub fn render(&self) -> (r: String)
        ensures
            r@ == type_def_text(*self),
    {
        match self {
            TypeDefinition::Composite(c) => c.render(),
            TypeDefinition::Enum(e) => e.render(),
        }
    }
}

/// The borrowed form of a type's target-language text, under an
/// optional named lifetime.
pub struct TypeAsRef<'a> {
    pub lifetime: Option<&'a str>,
    pub val: &'a Type,
}

/// The lifetime prefix written before a borrowed type: an apostrophe,
/// the lifetime name and a space, or nothing when no lifetime is
/// given.
pub open spec fn lifetime_text(lt: Option<Seq<char>>) -> Seq<char> {
    match lt {
        Some(name) => "'"@ + name + " "@,
        None => Seq::empty(),
    }
}

/// The borrowed target-language text of a type: borrowed text and
/// borrowed slices where the owned form would allocate, the owned
/// form elsewhere.
pub open spec fn ref_text(t: Type, lt: Option<Seq<char>>) -> Seq<char>
    decreases t,
{
    match t {
        Type::Array(inner) => "&"@ + lifetime_text(lt) + "["@ + ref_text(*inner, lt) + "]"@,
        Type::Builtin(k) => match k {
            ScalarType::Text => "&"@ + lifetime_text(lt) + "str"@,
            ScalarType::Bytea => "&[u8]"@,
            ScalarType::Jsonb => "&impl Serialize"@,
            _ => type_text(t),
        },
        Type::Composite(c) => "&"@ + lifetime_text(lt) + camel_of(c.name@),
        Type::Enum(e) => camel_of(e.name@),
    }
}

/// The optional lifetime's view, for speaking about `TypeAsRef`
/// values.
pub open spec fn lifetime_view(lt: Option<&str>) -> Option<Seq<char>> {
    match lt {
        Some(l) => Some(l@),
        None => None,
    }
}

fn lifetime_prefix(lt: Option<&str>) -> (r: String)
    ensures
        r@ == lifetime_text(lifetime_view(lt)),
{
    match lt {
        Some(l) => {
            let mut r = String::from_str("'");
            r.append(l);
            r.append(" ");
            proof {
                assert(r@ =~= lifetime_text(lifetime_view(lt)));
            }
            r
        },
        None => String::new(),
    }
}

impl<'a> TypeAsRef<'a> {
    /// Renders the borrowed form of the type.
    pub fn render(&self) -> (r: String)
        ensures
            r@ == ref_text(*self.val, lifetime_view(self.lifetime)),
        decreases *self.val,
    {
        match self.val {
            Type::Array(inner) => {
                let mut r = String::from_str("&");
                let prefix = lifetime_prefix(self.lifetime);
                r.append(prefix.as_str());
                r.append("[");
                let nested = TypeAsRef { lifetime: self.lifetime, val: inner };
                let inner_text = nested.render();
                r.append(inner_text.as_str());
                r.append("]");
                proof {
                    assert(r@ =~= ref_text(*self.val, lifetime_view(self.lifetime)));
                }
                r
            },
            Type::Builtin(k) => match k {
                ScalarType::Text => {
                    let mut r = String::from_str("&");
                    let prefix = lifetime_prefix(self.lifetime);
                    r.append(prefix.as_str());
                    r.append("str");
                    proof {
                        assert(r@ =~= ref_text(*self.val, lifetime_view(self.lifetime)));
                    }
                    r
                },
                ScalarType::Bytea => String::from_str("&[u8]"),
                ScalarType::Jsonb => String::from_str("&impl Serialize"),
                _ => self.val.render(),
            },
            Type::Composite(c) => {
                let mut r = String::from_str("&");
                let prefix = lifetime_prefix(self.lifetime);
                r.append(prefix.as_str());
                let camel = to_upper_camel_case(c.name.as_str());
                r.append(camel.as_str());
                proof {
                    assert(r@ =~= ref_text(*self.val, lifetime_view(self.lifetime)));
                }
                r
            },
            Type::Enum(e) => to_upper_camel_case(e.name.as_str()),
        }
    }
}


/// Scalar round-trip law: every supported scalar type name parses to a
/// type whose rendering is exactly the declared target-language type
/// text.
#[verifier::rlimit(100)]
pub proof fn lemma_scalar_round_trip()
    ensures
        (from_name_spec("bigint"@) matches Some(t) && type_text(t) == "i64"@),
        (from_name_spec("boolean"@) matches Some(t) && type_text(t) == "bool"@),
        (from_name_spec("bytea"@) matches Some(t) && type_text(t) == "Vec<u8>"@),
        (from_name_spec("bytea[]"@) matches Some(t) && type_text(t) == "Vec<Vec<u8>>"@),
        (from_name_spec("float4"@) matches Some(t) && type_text(t) == "f32"@),
        (from_name_spec("real"@) matches Some(t) && type_text(t) == "f32"@),
        (from_name_spec("float8"@) matches Some(t) && type_text(t) == "f64"@),
        (from_name_spec("double precision"@) matches Some(t) && type_text(t) == "f64"@),
        (from_name_spec("inet"@) matches Some(t) && type_text(t) == "std::net::IpAddr"@),
        (from_name_spec("smallint"@) matches Some(t) && type_text(t) == "i16"@),
        (from_name_spec("int2"@) matches Some(t) && type_text(t) == "i16"@),
        (from_name_spec("integer"@) matches Some(t) && type_text(t) == "i32"@),
        (from_name_spec("int4"@) matches Some(t) && type_text(t) == "i32"@),
        (from_name_spec("interval"@) matches Some(t) && type_text(t) == "PgInterval"@),
        (from_name_spec("jsonb"@) matches Some(t) && type_text(t) == "JsonB"@),
        (from_name_spec("text"@) matches Some(t) && type_text(t) == "String"@),
        (from_name_spec("character varying"@) matches Some(t) && type_text(t) == "String"@),
        (from_name_spec("text[]"@) matches Some(t) && type_text(t) == "Vec<String>"@),
        (from_name_spec("timestamp with time zone"@) matches Some(t) && type_text(t) == "chrono::DateTime<chrono::Utc>"@),
        (from_name_spec("timestamp without time zone"@) matches Some(t) && type_text(t) == "chrono::naive::NaiveDateTime"@),
        (from_name_spec("uuid"@) matches Some(t) && type_text(t) == "uuid::Uuid"@),
        (from_name_spec("vector"@) matches Some(t) && type_text(t) == "pgvector::Vector"@),
        (from_name_spec("tsvector"@) matches Some(t) && type_text(t) == "pgvector::Vector"@),
{
    broadcast use vstd::string::group_string_axioms;

        reveal_strlit("JsonB");
        reveal_strlit("PgInterval");
        reveal_strlit("String");
        reveal_strlit("Vec<String>");
        reveal_strlit("Vec<Vec<u8>>");
        reveal_strlit("Vec<u8>");
        reveal_strlit("bigint");
        reveal_strlit("bool");
        reveal_strlit("boolean");
        reveal_strlit("bytea");
        reveal_strlit("bytea[]");
        reveal_strlit("character varying");
        reveal_strlit("chrono::DateTime<chrono::Utc>");
        reveal_strlit("chrono::naive::NaiveDateTime");
        reveal_strlit("double precision");
        reveal_strlit("f32");
        reveal_strlit("f64");
        reveal_strlit("float4");
        reveal_strlit("float8");
        reveal_strlit("i16");
        reveal_strlit("i32");
        reveal_strlit("i64");
        reveal_strlit("inet");
        reveal_strlit("int2");
        reveal_strlit("int4");
        reveal_strlit("integer");
        reveal_strlit("interval");
        reveal_strlit("jsonb");
        reveal_strlit("pgvector::Vector");
        reveal_strlit("real");
        reveal_strlit("smallint");
        reveal_strlit("std::net::IpAddr");
        reveal_strlit("text");
        reveal_strlit("text[]");
        reveal_strlit("timestamp with time zone");
        reveal_strlit("timestamp without time zone");
        reveal_strlit("tsvector");
        reveal_strlit("uuid");
        reveal_strlit("uuid::Uuid");
        reveal_strlit("vector");
        reveal_with_fuel(type_text, 3);
        lemma_seq_ne_len("tsvector"@, "vector"@);
        lemma_seq_ne_at("bigint"@, "vector"@, 0);
        lemma_seq_ne_len("bigint"@, "tsvector"@);
        lemma_seq_ne_len("boolean"@, "vector"@);
        lemma_seq_ne_len("boolean"@, "tsvector"@);
        lemma_seq_ne_len("boolean"@, "bigint"@);
        lemma_seq_ne_len("bytea"@, "vector"@);
        lemma_seq_ne_len("bytea"@, "tsvector"@);
        lemma_seq_ne_len("bytea"@, "bigint"@);
        lemma_seq_ne_len("bytea"@, "boolean"@);
        lemma_seq_ne_len("bytea[]"@, "vector"@);
        lemma_seq_ne_len("bytea[]"@, "tsvector"@);
        lemma_seq_ne_len("bytea[]"@, "bigint"@);
        lemma_seq_ne_at("bytea[]"@, "boolean"@, 1);
        lemma_seq_ne_len("bytea[]"@, "bytea"@);
        lemma_seq_ne_at("float4"@, "vector"@, 0);
        lemma_seq_ne_len("float4"@, "tsvector"@);
        lemma_seq_ne_at("float4"@, "bigint"@, 0);
        lemma_seq_ne_len("float4"@, "boolean"@);
        lemma_seq_ne_len("float4"@, "bytea"@);
        lemma_seq_ne_len("float4"@, "bytea[]"@);
        lemma_seq_ne_len("real"@, "vector"@);
        lemma_seq_ne_len("real"@, "tsvector"@);
        lemma_seq_ne_len("real"@, "bigint"@);
        lemma_seq_ne_len("real"@, "boolean"@);
        lemma_seq_ne_len("real"@, "bytea"@);
        lemma_seq_ne_len("real"@, "bytea[]"@);
        lemma_seq_ne_len("real"@, "float4"@);
        lemma_seq_ne_at("float8"@, "vector"@, 0);
        lemma_seq_ne_len("float8"@, "tsvector"@);
        lemma_seq_ne_at("float8"@, "bigint"@, 0);
        lemma_seq_ne_len("float8"@, "boolean"@);
        lemma_seq_ne_len("float8"@, "bytea"@);
        lemma_seq_ne_len("float8"@, "bytea[]"@);
        lemma_seq_ne_at("float8"@, "float4"@, 5);
        lemma_seq_ne_len("float8"@, "real"@);
        lemma_seq_ne_len("double precision"@, "vector"@);
        lemma_seq_ne_len("double precision"@, "tsvector"@);
        lemma_seq_ne_len("double precision"@, "bigint"@);
        lemma_seq_ne_len("double precision"@, "boolean"@);
        lemma_seq_ne_len("double precision"@, "bytea"@);
        lemma_seq_ne_len("double precision"@, "bytea[]"@);
        lemma_seq_ne_len("double precision"@, "float4"@);
        lemma_seq_ne_len("double precision"@, "real"@);
        lemma_seq_ne_len("double precision"@, "float8"@);
        lemma_seq_ne_len("inet"@, "vector"@);
        lemma_seq_ne_len("inet"@, "tsvector"@);
        lemma_seq_ne_len("inet"@, "bigint"@);
        lemma_seq_ne_len("inet"@, "boolean"@);
        lemma_seq_ne_len("inet"@, "bytea"@);
        lemma_seq_ne_len("inet"@, "bytea[]"@);
        lemma_seq_ne_len("inet"@, "float4"@);
        lemma_seq_ne_at("inet"@, "real"@, 0);
        lemma_seq_ne_len("inet"@, "float8"@);
        lemma_seq_ne_len("inet"@, "double precision"@);
        lemma_seq_ne_len("smallint"@, "vector"@);
        lemma_seq_ne_at("smallint"@, "tsvector"@, 0);
        lemma_seq_ne_len("smallint"@, "bigint"@);
        lemma_seq_ne_len("smallint"@, "boolean"@);
        lemma_seq_ne_len("smallint"@, "bytea"@);
        lemma_seq_ne_len("smallint"@, "bytea[]"@);
        lemma_seq_ne_len("smallint"@, "float4"@);
        lemma_seq_ne_len("smallint"@, "real"@);
        lemma_seq_ne_len("smallint"@, "float8"@);
        lemma_seq_ne_len("smallint"@, "double precision"@);
        lemma_seq_ne_len("smallint"@, "inet"@);
        lemma_seq_ne_len("int2"@, "vector"@);
        lemma_seq_ne_len("int2"@, "tsvector"@);
        lemma_seq_ne_len("int2"@, "bigint"@);
        lemma_seq_ne_len("int2"@, "boolean"@);
        lemma_seq_ne_len("int2"@, "bytea"@);
        lemma_seq_ne_len("int2"@, "bytea[]"@);
        lemma_seq_ne_len("int2"@, "float4"@);
        lemma_seq_ne_at("int2"@, "real"@, 0);
        lemma_seq_ne_len("int2"@, "float8"@);
        lemma_seq_ne_len("int2"@, "double precision"@);
        lemma_seq_ne_at("int2"@, "inet"@, 2);
        lemma_seq_ne_len("int2"@, "smallint"@);
        lemma_seq_ne_len("integer"@, "vector"@);
        lemma_seq_ne_len("integer"@, "tsvector"@);
        lemma_seq_ne_len("integer"@, "bigint"@);
        lemma_seq_ne_at("integer"@, "boolean"@, 0);
        lemma_seq_ne_len("integer"@, "bytea"@);
        lemma_seq_ne_at("integer"@, "bytea[]"@, 0);
        lemma_seq_ne_len("integer"@, "float4"@);
        lemma_seq_ne_len("integer"@, "real"@);
        lemma_seq_ne_len("integer"@, "float8"@);
        lemma_seq_ne_len("integer"@, "double precision"@);
        lemma_seq_ne_len("integer"@, "inet"@);
        lemma_seq_ne_len("integer"@, "smallint"@);
        lemma_seq_ne_len("integer"@, "int2"@);
        lemma_seq_ne_len("int4"@, "vector"@);
        lemma_seq_ne_len("int4"@, "tsvector"@);
        lemma_seq_ne_len("int4"@, "bigint"@);
        lemma_seq_ne_len("int4"@, "boolean"@);
        lemma_seq_ne_len("int4"@, "bytea"@);
        lemma_seq_ne_len("int4"@, "bytea[]"@);
        lemma_seq_ne_len("int4"@, "float4"@);
        lemma_seq_ne_at("int4"@, "real"@, 0);
        lemma_seq_ne_len("int4"@, "float8"@);
        lemma_seq_ne_len("int4"@, "double precision"@);
        lemma_seq_ne_at("int4"@, "inet"@, 2);
        lemma_seq_ne_len("int4"@, "smallint"@);
        lemma_seq_ne_at("int4"@, "int2"@, 3);
        lemma_seq_ne_len("int4"@, "integer"@);
        lemma_seq_ne_len("interval"@, "vector"@);
        lemma_seq_ne_at("interval"@, "tsvector"@, 0);
        lemma_seq_ne_len("interval"@, "bigint"@);
        lemma_seq_ne_len("interval"@, "boolean"@);
        lemma_seq_ne_len("interval"@, "bytea"@);
        lemma_seq_ne_len("interval"@, "bytea[]"@);
        lemma_seq_ne_len("interval"@, "float4"@);
        lemma_seq_ne_len("interval"@, "real"@);
        lemma_seq_ne_len("interval"@, "float8"@);
        lemma_seq_ne_len("interval"@, "double precision"@);
        lemma_seq_ne_len("interval"@, "inet"@);
        lemma_seq_ne_at("interval"@, "smallint"@, 0);
        lemma_seq_ne_len("interval"@, "int2"@);
        lemma_seq_ne_len("interval"@, "integer"@);
        lemma_seq_ne_len("interval"@, "int4"@);
        lemma_seq_ne_len("jsonb"@, "vector"@);
        lemma_seq_ne_len("jsonb"@, "tsvector"@);
        lemma_seq_ne_len("jsonb"@, "bigint"@);
        lemma_seq_ne_len("jsonb"@, "boolean"@);
        lemma_seq_ne_at("jsonb"@, "bytea"@, 0);
        lemma_seq_ne_len("jsonb"@, "bytea[]"@);
        lemma_seq_ne_len("jsonb"@, "float4"@);
        lemma_seq_ne_len("jsonb"@, "real"@);
        lemma_seq_ne_len("jsonb"@, "float8"@);
        lemma_seq_ne_len("jsonb"@, "double precision"@);
        lemma_seq_ne_len("jsonb"@, "inet"@);
        lemma_seq_ne_len("jsonb"@, "smallint"@);
        lemma_seq_ne_len("jsonb"@, "int2"@);
        lemma_seq_ne_len("jsonb"@, "integer"@);
        lemma_seq_ne_len("jsonb"@, "int4"@);
        lemma_seq_ne_len("jsonb"@, "interval"@);
        lemma_seq_ne_len("text"@, "vector"@);
        lemma_seq_ne_len("text"@, "tsvector"@);
        lemma_seq_ne_len("text"@, "bigint"@);
        lemma_seq_ne_len("text"@, "boolean"@);
        lemma_seq_ne_len("text"@, "bytea"@);
        lemma_seq_ne_len("text"@, "bytea[]"@);
        lemma_seq_ne_len("text"@, "float4"@);
        lemma_seq_ne_at("text"@, "real"@, 0);
        lemma_seq_ne_len("text"@, "float8"@);
        lemma_seq_ne_len("text"@, "double precision"@);
        lemma_seq_ne_at("text"@, "inet"@, 0);
        lemma_seq_ne_len("text"@, "smallint"@);
        lemma_seq_ne_at("text"@, "int2"@, 0);
        lemma_seq_ne_len("text"@, "integer"@);
        lemma_seq_ne_at("text"@, "int4"@, 0);
        lemma_seq_ne_len("text"@, "interval"@);
        lemma_seq_ne_len("text"@, "jsonb"@);
        lemma_seq_ne_len("character varying"@, "vector"@);
        lemma_seq_ne_len("character varying"@, "tsvector"@);
        lemma_seq_ne_len("character varying"@, "bigint"@);
        lemma_seq_ne_len("character varying"@, "boolean"@);
        lemma_seq_ne_len("character varying"@, "bytea"@);
        lemma_seq_ne_len("character varying"@, "bytea[]"@);
        lemma_seq_ne_len("character varying"@, "float4"@);
        lemma_seq_ne_len("character varying"@, "real"@);
        lemma_seq_ne_len("character varying"@, "float8"@);
        lemma_seq_ne_len("character varying"@, "double precision"@);
        lemma_seq_ne_len("character varying"@, "inet"@);
        lemma_seq_ne_len("character varying"@, "smallint"@);
        lemma_seq_ne_len("character varying"@, "int2"@);
        lemma_seq_ne_len("character varying"@, "integer"@);
        lemma_seq_ne_len("character varying"@, "int4"@);
        lemma_seq_ne_len("character varying"@, "interval"@);
        lemma_seq_ne_len("character varying"@, "jsonb"@);
        lemma_seq_ne_len("character varying"@, "text"@);
        lemma_seq_ne_at("text[]"@, "vector"@, 0);
        lemma_seq_ne_len("text[]"@, "tsvector"@);
        lemma_seq_ne_at("text[]"@, "bigint"@, 0);
        lemma_seq_ne_len("text[]"@, "boolean"@);
        lemma_seq_ne_len("text[]"@, "bytea"@);
        lemma_seq_ne_len("text[]"@, "bytea[]"@);
        lemma_seq_ne_at("text[]"@, "float4"@, 0);
        lemma_seq_ne_len("text[]"@, "real"@);
        lemma_seq_ne_at("text[]"@, "float8"@, 0);
        lemma_seq_ne_len("text[]"@, "double precision"@);
        lemma_seq_ne_len("text[]"@, "inet"@);
        lemma_seq_ne_len("text[]"@, "smallint"@);
        lemma_seq_ne_len("text[]"@, "int2"@);
        lemma_seq_ne_len("text[]"@, "integer"@);
        lemma_seq_ne_len("text[]"@, "int4"@);
        lemma_seq_ne_len("text[]"@, "interval"@);
        lemma_seq_ne_len("text[]"@, "jsonb"@);
        lemma_seq_ne_len("text[]"@, "text"@);
        lemma_seq_ne_len("text[]"@, "character varying"@);
        lemma_seq_ne_len("timestamp with time zone"@, "vector"@);
        lemma_seq_ne_len("timestamp with time zone"@, "tsvector"@);
        lemma_seq_ne_len("timestamp with time zone"@, "bigint"@);
        lemma_seq_ne_len("timestamp with time zone"@, "boolean"@);
        lemma_seq_ne_len("timestamp with time zone"@, "bytea"@);
        lemma_seq_ne_len("timestamp with time zone"@, "bytea[]"@);
        lemma_seq_ne_len("timestamp with time zone"@, "float4"@);
        lemma_seq_ne_len("timestamp with time zone"@, "real"@);
        lemma_seq_ne_len("timestamp with time zone"@, "float8"@);
        lemma_seq_ne_len("timestamp with time zone"@, "double precision"@);
        lemma_seq_ne_len("timestamp with time zone"@, "inet"@);
        lemma_seq_ne_len("timestamp with time zone"@, "smallint"@);
        lemma_seq_ne_len("timestamp with time zone"@, "int2"@);
        lemma_seq_ne_len("timestamp with time zone"@, "integer"@);
        lemma_seq_ne_len("timestamp with time zone"@, "int4"@);
        lemma_seq_ne_len("timestamp with time zone"@, "interval"@);
        lemma_seq_ne_len("timestamp with time zone"@, "jsonb"@);
        lemma_seq_ne_len("timestamp with time zone"@, "text"@);
        lemma_seq_ne_len("timestamp with time zone"@, "character varying"@);
        lemma_seq_ne_len("timestamp with time zone"@, "text[]"@);
        lemma_seq_ne_len("timestamp without time zone"@, "vector"@);
        lemma_seq_ne_len("timestamp without time zone"@, "tsvector"@);
        lemma_seq_ne_len("timestamp without time zone"@, "bigint"@);
        lemma_seq_ne_len("timestamp without time zone"@, "boolean"@);
        lemma_seq_ne_len("timestamp without time zone"@, "bytea"@);
        lemma_seq_ne_len("timestamp without time zone"@, "bytea[]"@);
        lemma_seq_ne_len("timestamp without time zone"@, "float4"@);
        lemma_seq_ne_len("timestamp without time zone"@, "real"@);
        lemma_seq_ne_len("timestamp without time zone"@, "float8"@);
        lemma_seq_ne_len("timestamp without time zone"@, "double precision"@);
        lemma_seq_ne_len("timestamp without time zone"@, "inet"@);
        lemma_seq_ne_len("timestamp without time zone"@, "smallint"@);
        lemma_seq_ne_len("timestamp without time zone"@, "int2"@);
        lemma_seq_ne_len("timestamp without time zone"@, "integer"@);
        lemma_seq_ne_len("timestamp without time zone"@, "int4"@);
        lemma_seq_ne_len("timestamp without time zone"@, "interval"@);
        lemma_seq_ne_len("timestamp without time zone"@, "jsonb"@);
        lemma_seq_ne_len("timestamp without time zone"@, "text"@);
        lemma_seq_ne_len("timestamp without time zone"@, "character varying"@);
        lemma_seq_ne_len("timestamp without time zone"@, "text[]"@);
        lemma_seq_ne_len("timestamp without time zone"@, "timestamp with time zone"@);
        lemma_seq_ne_len("uuid"@, "vector"@);
        lemma_seq_ne_len("uuid"@, "tsvector"@);
        lemma_seq_ne_len("uuid"@, "bigint"@);
        lemma_seq_ne_len("uuid"@, "boolean"@);
        lemma_seq_ne_len("uuid"@, "bytea"@);
        lemma_seq_ne_len("uuid"@, "bytea[]"@);
        lemma_seq_ne_len("uuid"@, "float4"@);
        lemma_seq_ne_at("uuid"@, "real"@, 0);
        lemma_seq_ne_len("uuid"@, "float8"@);
        lemma_seq_ne_len("uuid"@, "double precision"@);
        lemma_seq_ne_at("uuid"@, "inet"@, 0);
        lemma_seq_ne_len("uuid"@, "smallint"@);
        lemma_seq_ne_at("uuid"@, "int2"@, 0);
        lemma_seq_ne_len("uuid"@, "integer"@);
        lemma_seq_ne_at("uuid"@, "int4"@, 0);
        lemma_seq_ne_len("uuid"@, "interval"@);
        lemma_seq_ne_len("uuid"@, "jsonb"@);
        lemma_seq_ne_at("uuid"@, "text"@, 0);
        lemma_seq_ne_len("uuid"@, "character varying"@);
        lemma_seq_ne_len("uuid"@, "text[]"@);
        lemma_seq_ne_len("uuid"@, "timestamp with time zone"@);
        lemma_seq_ne_len("uuid"@, "timestamp without time zone"@);
        reveal_strlit("Vec<");
        reveal_strlit(">");
        assert(type_text(Type::Array(Box::new(Type::Builtin(ScalarType::Bytea)))) =~= "Vec<Vec<u8>>"@);
        assert(type_text(Type::Array(Box::new(Type::Builtin(ScalarType::Text)))) =~= "Vec<String>"@);
}


impl core::str::FromStr for Type {
    type Err = SchemaError;

    /// Parses a declared type name, as `Type::from_name` does.
    fn from_str(s: &str) -> Result<Type, SchemaError> {
        Type::from_name(s)
    }
}

} // verus!
