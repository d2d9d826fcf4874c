//! Target-language type expressions and the mapping from native column types.

use vstd::prelude::*;
use vstd::string::StrSliceExecFns;
use vstd::string::StringExecFns;
use crate::naming::{pascal_case, pascal_of};
use crate::text::str_eq;

verus! {

/// A target-language type expression.
///
/// `Optional`, `Vector` and `Range` wrap an inner type and may nest;
/// `Custom` names a type by its text; `Primitive` is a plain built-in
/// type passed through as written.
#[derive(Debug)]
pub enum Type {
    Uuid,
    Date,
    Time,
    Timestamp,
    TimestampWithTz,
    Interval,
    Decimal,
    IpNetwork,
    Json,
    Tree,
    Query,
    Money,
    Optional(Box<Type>),
    Vector(Box<Type>),
    Range(Box<Type>),
    Custom(String),
    Primitive(String),
}

/// The mathematical model of a [`Type`]: names held as character sequences.
pub enum TypeModel {
    Uuid,
    Date,
    Time,
    Timestamp,
    TimestampWithTz,
    Interval,
    Decimal,
    IpNetwork,
    Json,
    Tree,
    Query,
    Money,
    Optional(Box<TypeModel>),
    Vector(Box<TypeModel>),
    Range(Box<TypeModel>),
    Custom(Seq<char>),
    Primitive(Seq<char>),
}

/// The model of a type expression.
pub open spec fn model_of(t: Type) -> TypeModel
    decreases t,
{
    match t {
        Type::Uuid => TypeModel::Uuid,
        Type::Date => TypeModel::Date,
        Type::Time => TypeModel::Time,
        Type::Timestamp => TypeModel::Timestamp,
        Type::TimestampWithTz => TypeModel::TimestampWithTz,
        Type::Interval => TypeModel::Interval,
        Type::Decimal => TypeModel::Decimal,
        Type::IpNetwork => TypeModel::IpNetwork,
        Type::Json => TypeModel::Json,
        Type::Tree => TypeModel::Tree,
        Type::Query => TypeModel::Query,
        Type::Money => TypeModel::Money,
        Type::Optional(b) => TypeModel::Optional(Box::new(model_of(*b))),
        Type::Vector(b) => TypeModel::Vector(Box::new(model_of(*b))),
        Type::Range(b) => TypeModel::Range(Box::new(model_of(*b))),
        Type::Custom(n) => TypeModel::Custom(n@),
        Type::Primitive(n) => TypeModel::Primitive(n@),
    }
}

impl View for Type {
    type V = TypeModel;

    open spec fn view(&self) -> TypeModel {
        model_of(*self)
    }
}

/// The source text of a type expression.
pub open spec fn type_text(t: TypeModel) -> Seq<char>
    decreases t,
{
    match t {
        TypeModel::Uuid => "Uuid"@,
        TypeModel::Date => "NaiveDate"@,
        TypeModel::Time => "NaiveTime"@,
        TypeModel::Timestamp => "NaiveDateTime"@,
        TypeModel::TimestampWithTz => "DateTime<Utc>"@,
        TypeModel::Interval => "PgInterval"@,
        TypeModel::Decimal => "Decimal"@,
        TypeModel::IpNetwork => "IpNetwork"@,
        TypeModel::Json => "Value"@,
        TypeModel::Tree => "LTree"@,
        TypeModel::Query => "TSQuery"@,
        TypeModel::Money => "PgMoney"@,
        TypeModel::Optional(b) => "Option<"@ + type_text(*b) + ">"@,
        TypeModel::Vector(b) => "Vec<"@ + type_text(*b) + ">"@,
        TypeModel::Range(b) => "PgRange<"@ + type_text(*b) + ">"@,
        TypeModel::Custom(n) => n,
        TypeModel::Primitive(n) => n,
    }
}

/// The built-in type that a native primitive type name maps to, if any.
pub open spec fn primitive_name(native: Seq<char>) -> Option<Seq<char>> {
    if native == "bool"@ {
        Some("bool"@)
    } else if native == "int2"@ {
        Some("i16"@)
    } else if native == "int4"@ {
        Some("i32"@)
    } else if native == "int8"@ {
        Some("i64"@)
    } else if native == "float4"@ {
        Some("f32"@)
    } else if native == "float8"@ {
        Some("f64"@)
    } else if native == "text"@ || native == "varchar"@ || native == "bpchar"@
        || native == "char"@ || native == "name"@ || native == "citext"@ {
        Some("String"@)
    } else if native == "bytea"@ {
        Some("Vec<u8>"@)
    } else {
        None
    }
}

/// The type that a native (database) type name maps to.
///
/// A leading underscore marks an array of the rest; range names map to a
/// range of their element type; names that nothing recognises become a
/// custom reference to the declaration generated for them.
pub open spec fn native_type(native: Seq<char>) -> TypeModel
    decreases native.len(),
{
    if native.len() > 0 && native[0] == '_' {
        TypeModel::Vector(Box::new(native_type(native.subrange(1, native.len() as int))))
    } else if native == "uuid"@ {
        TypeModel::Uuid
    } else if native == "date"@ {
        TypeModel::Date
    } else if native == "time"@ {
        TypeModel::Time
    } else if native == "timestamp"@ {
        TypeModel::Timestamp
    } else if native == "timestamptz"@ {
        TypeModel::TimestampWithTz
    } else if native == "interval"@ {
        TypeModel::Interval
    } else if native == "numeric"@ {
        TypeModel::Decimal
    } else if native == "inet"@ || native == "cidr"@ {
        TypeModel::IpNetwork
    } else if native == "json"@ || native == "jsonb"@ {
        TypeModel::Json
    } else if native == "ltree"@ {
        TypeModel::Tree
    } else if native == "tsquery"@ {
        TypeModel::Query
    } else if native == "money"@ {
        TypeModel::Money
    } else if native == "int4range"@ {
        TypeModel::Range(Box::new(TypeModel::Primitive("i32"@)))
    } else if native == "int8range"@ {
        TypeModel::Range(Box::new(TypeModel::Primitive("i64"@)))
    } else if native == "numrange"@ {
        TypeModel::Range(Box::new(TypeModel::Decimal))
    } else if native == "daterange"@ {
        TypeModel::Range(Box::new(TypeModel::Date))
    } else if native == "tsrange"@ {
        TypeModel::Range(Box::new(TypeModel::Timestamp))
    } else if native == "tstzrange"@ {
        TypeModel::Range(Box::new(TypeModel::TimestampWithTz))
    } else if native == "oid"@ {
        TypeModel::Custom("Oid"@)
    } else if native == "geometry"@ {
        TypeModel::Custom("postgis::ewkb::Geometry"@)
    } else if primitive_name(native) is Some {
        TypeModel::Primitive(primitive_name(native)->0)
    } else {
        TypeModel::Custom(pascal_of(native))
    }
}

fn primitive(name: &str) -> (r: Type)
    ensures
        r@ == TypeModel::Primitive(name@),
{
    Type::Primitive(String::from_str(name))
}

fn custom(name: &str) -> (r: Type)
    ensures
        r@ == TypeModel::Custom(name@),
{
    Type::Custom(String::from_str(name))
}

fn boxed_range(inner: Type) -> (r: Type)
    ensures
        r@ == TypeModel::Range(Box::new(inner@)),
{
    Type::Range(Box::new(inner))
}

/// The built-in type for a native primitive type name, if it is one.
pub fn map_primitive(native: &str) -> (r: Option<Type>)
    ensures
        primitive_name(native@) is None ==> r is None,
        primitive_name(native@) matches Some(n) ==> r matches Some(t) && t@ == TypeModel::Primitive(n),
{
    if str_eq(native, "bool") {
        Some(primitive("bool"))
    } else if str_eq(native, "int2") {
        Some(primitive("i16"))
    } else if str_eq(native, "int4") {
        Some(primitive("i32"))
    } else if str_eq(native, "int8") {
        Some(primitive("i64"))
    } else if str_eq(native, "float4") {
        Some(primitive("f32"))
    } else if str_eq(native, "float8") {
        Some(primitive("f64"))
    } else if str_eq(native, "text") || str_eq(native, "varchar") || str_eq(native, "bpchar")
        || str_eq(native, "char") || str_eq(native, "name") || str_eq(native, "citext") {
        Some(primitive("String"))
    } else if str_eq(native, "bytea") {
        Some(primitive("Vec<u8>"))
    } else {
        None
    }
}

/// Maps a native type name to a type expression. Never fails: a name that
/// nothing recognises becomes a custom reference.
pub fn map_native_type(native: &str) -> (r: Type)
    ensures
        r@ == native_type(native@),
    decreases native@.len(),
{
    let n = native.unicode_len();
    if n > 0 && native.get_char(0) == '_' {
        let inner = map_native_type(native.substring_char(1, n));
        return Type::Vector(Box::new(inner));
    }
    if str_eq(native, "uuid") {
        Type::Uuid
    } else if str_eq(native, "date") {
        Type::Date
    } else if str_eq(native, "time") {
        Type::Time
    } else if str_eq(native, "timestamp") {
        Type::Timestamp
    } else if str_eq(native, "timestamptz") {
        Type::TimestampWithTz
    } else if str_eq(native, "interval") {
        Type::Interval
    } else if str_eq(native, "numeric") {
        Type::Decimal
    } else if str_eq(native, "inet") || str_eq(native, "cidr") {
        Type::IpNetwork
    } else if str_eq(native, "json") || str_eq(native, "jsonb") {
        Type::Json
    } else if str_eq(native, "ltree") {
        Type::Tree
    } else if str_eq(native, "tsquery") {
        Type::Query
    } else if str_eq(native, "money") {
        Type::Money
    } else if str_eq(native, "int4range") {
        boxed_range(primitive("i32"))
    } else if str_eq(native, "int8range") {
        boxed_range(primitive("i64"))
    } else if str_eq(native, "numrange") {
        boxed_range(Type::Decimal)
    } else if str_eq(native, "daterange") {
        boxed_range(Type::Date)
    } else if str_eq(native, "tsrange") {
        boxed_range(Type::Timestamp)
    } else if str_eq(native, "tstzrange") {
        boxed_range(Type::TimestampWithTz)
    } else if str_eq(native, "oid") {
        custom("Oid")
    } else if str_eq(native, "geometry") {
        custom("postgis::ewkb::Geometry")
    } else {
        match map_primitive(native) {
            Some(t) => t,
            None => Type::Custom(pascal_case(native)),
        }
    }
}

impl Type {
    /// The source text of this type expression.
    pub fn render(&self) -> (r: String)
        ensures
            r@ == type_text(self@),
        decreases self,
    {
        match self {
            Type::Uuid => String::from_str("Uuid"),
            Type::Date => String::from_str("NaiveDate"),
            Type::Time => String::from_str("NaiveTime"),
            Type::Timestamp => String::from_str("NaiveDateTime"),
            Type::TimestampWithTz => String::from_str("DateTime<Utc>"),
            Type::Interval => String::from_str("PgInterval"),
            Type::Decimal => String::from_str("Decimal"),
            Type::IpNetwork => String::from_str("IpNetwork"),
            Type::Json => String::from_str("Value"),
            Type::Tree => String::from_str("LTree"),
            Type::Query => String::from_str("TSQuery"),
            Type::Money => String::from_str("PgMoney"),
            Type::Optional(b) => {
                let mut s = String::from_str("Option<");
                s.append(b.render().as_str());
                s.append(">");
                s
            },
            Type::Vector(b) => {
                let mut s = String::from_str("Vec<");
                s.append(b.render().as_str());
                s.append(">");
                s
            },
            Type::Range(b) => {
                let mut s = String::from_str("PgRange<");
                s.append(b.render().as_str());
                s.append(">");
                s
            },
            Type::Custom(n) => n.clone(),
            Type::Primitive(n) => n.clone(),
        }
    }

    /// Whether this type is an optional (nullable) wrapper.
    pub fn is_optional(&self) -> (r: bool)
        ensures
            r == (self@ is Optional),
    {
        match self {
            Type::Optional(_) => true,
            _ => false,
        }
    }
}

} // verus!
