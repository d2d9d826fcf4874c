use schemagen::generator::{classify_custom, CustomKind, Framework, Generator, Options};
use schemagen::schema::{Attribute, Column, CompositeType, Enum, EnumValue, Schema, Table};
use schemagen::snippet::Snippet;
use schemagen::types::{map_native_type, Type};

fn s(x: &str) -> String {
    x.to_string()
}

fn options(singular: bool, framework: Framework) -> Options {
    Options { singular, framework }
}

fn status_enum() -> Enum {
    Enum {
        name: s("status"),
        values: vec![EnumValue { name: s("active") }, EnumValue { name: s("past_due") }],
    }
}

fn users_table() -> Table {
    Table {
        name: s("users"),
        columns: vec![Column { name: s("email"), udt_name: s("text"), is_nullable: true }],
    }
}

fn column(name: &str, udt: &str, nullable: bool) -> Column {
    Column { name: s(name), udt_name: s(udt), is_nullable: nullable }
}

fn imports_of(native: &str) -> (String, Vec<String>, Vec<String>) {
    let g = Generator::new(options(false, Framework::Sqlx));
    let t = map_native_type(native);
    let mut snippet = Snippet::new(s("X"));
    g.add_type_imports(&mut snippet, &t);
    (t.render(), snippet.imports, snippet.dependencies)
}

#[test]
fn enum_status_under_sqlx() {
    let g = Generator::new(options(false, Framework::Sqlx));
    let schema = Schema { enumerations: vec![status_enum()], composite_types: vec![], tables: vec![] };
    let out = g.generate(&schema);
    assert_eq!(out.len(), 1);
    assert_eq!(out[0].id, "Status");
    assert_eq!(
        out[0].code,
        "#[derive(Debug, Clone, PartialEq, Eq, sqlx::Type)]\npub enum Status {\n    #[sqlx(rename = \"active\")]\n    Active,\n    #[sqlx(rename = \"past_due\")]\n    PastDue,\n}"
    );
    assert_eq!(out[0].code.matches("#[sqlx(rename").count(), 2);
}

#[test]
fn enum_status_plain() {
    let g = Generator::new(options(false, Framework::Plain));
    let snippet = g.enum_code(&status_enum());
    assert_eq!(
        snippet.code,
        "#[derive(Debug, Clone, PartialEq, Eq)]\npub enum Status {\n    Active,\n    PastDue,\n}"
    );
}

#[test]
fn users_table_singular_sqlx() {
    let g = Generator::new(options(true, Framework::Sqlx));
    let schema = Schema { enumerations: vec![], composite_types: vec![], tables: vec![users_table()] };
    let out = g.generate(&schema);
    assert_eq!(out.len(), 1);
    assert_eq!(out[0].id, "User");
    assert_eq!(
        out[0].code,
        "#[derive(Debug, Clone, sqlx::FromRow)]\npub struct User {\n    #[sqlx(default)]\n    pub email: Option<String>,\n}"
    );
}

#[test]
fn users_table_singular_plain() {
    let g = Generator::new(options(true, Framework::Plain));
    let schema = Schema { enumerations: vec![], composite_types: vec![], tables: vec![users_table()] };
    let out = g.generate(&schema);
    assert_eq!(out[0].id, "User");
    assert_eq!(
        out[0].code,
        "#[derive(Debug, Clone)]\npub struct User {\n    pub email: Option<String>,\n}"
    );
    assert!(!out[0].code.contains("default"));
}

#[test]
fn non_nullable_column_has_no_marker() {
    let g = Generator::new(options(false, Framework::Sqlx));
    let table = Table { name: s("accounts"), columns: vec![column("id", "int8", false)] };
    let snippet = g.table_code(&table);
    assert_eq!(
        snippet.code,
        "#[derive(Debug, Clone, sqlx::FromRow)]\npub struct Accounts {\n    pub id: i64,\n}"
    );
}

#[test]
fn composite_reference_becomes_dependency() {
    let g = Generator::new(options(false, Framework::Plain));
    let address = CompositeType {
        name: s("address"),
        attributes: vec![Attribute { name: s("street"), data_type: s("text") }],
    };
    let person = CompositeType {
        name: s("person"),
        attributes: vec![Attribute { name: s("home"), data_type: s("address") }],
    };
    let schema = Schema { enumerations: vec![], composite_types: vec![address, person], tables: vec![] };
    let out = g.generate(&schema);
    assert_eq!(out.len(), 2);
    assert_eq!(out[0].id, "Address");
    assert!(out[0].imports.is_empty());
    assert!(out[0].dependencies.is_empty());
    assert_eq!(
        out[0].code,
        "#[derive(Debug, Clone)]\npub struct Address {\n    pub street: String,\n}"
    );
    assert!(out[1].imports.is_empty());
    assert_eq!(out[1].dependencies, vec![s("Address")]);
    assert_eq!(
        out[1].code,
        "use super::Address;\n\n#[derive(Debug, Clone)]\npub struct Person {\n    pub home: Address,\n}"
    );
}

#[test]
fn composite_under_sqlx() {
    let g = Generator::new(options(false, Framework::Sqlx));
    let c = CompositeType {
        name: s("point"),
        attributes: vec![
            Attribute { name: s("id"), data_type: s("uuid") },
            Attribute { name: s("at"), data_type: s("timestamptz") },
        ],
    };
    let snippet = g.composite_code(&c);
    assert_eq!(snippet.imports, vec![s("uuid::Uuid"), s("chrono::{DateTime, Utc}")]);
    assert_eq!(
        snippet.code,
        "#[derive(Debug, Clone, sqlx::Type)]\npub struct Point {\n    pub id: Uuid,\n    pub at: DateTime<Utc>,\n}"
    );
}

#[test]
fn generation_is_deterministic() {
    let make = || Schema {
        enumerations: vec![status_enum()],
        composite_types: vec![],
        tables: vec![Table {
            name: s("events"),
            columns: vec![
                column("id", "uuid", false),
                column("at", "timestamptz", true),
                column("data", "jsonb", false),
                column("when", "date", false),
                column("other_id", "uuid", true),
                column("kind", "status", false),
            ],
        }],
    };
    let g = Generator::new(options(true, Framework::Sqlx));
    let a = g.generate(&make());
    let b = g.generate(&make());
    assert_eq!(a.len(), b.len());
    for (x, y) in a.iter().zip(b.iter()) {
        assert_eq!(x.id, y.id);
        assert_eq!(x.code, y.code);
    }
    assert_eq!(
        a[1].code,
        "use uuid::Uuid;\nuse chrono::{DateTime, Utc};\nuse serde_json::Value;\nuse chrono::NaiveDate;\nuse super::Status;\n\n#[derive(Debug, Clone, sqlx::FromRow)]\npub struct Event {\n    pub id: Uuid,\n    #[sqlx(default)]\n    pub at: Option<DateTime<Utc>>,\n    pub data: Value,\n    pub when: NaiveDate,\n    #[sqlx(default)]\n    pub other_id: Option<Uuid>,\n    pub kind: Status,\n}"
    );
}

#[test]
fn order_of_entities_is_enums_composites_tables() {
    let g = Generator::new(Options::default());
    let schema = Schema {
        enumerations: vec![status_enum()],
        composite_types: vec![CompositeType { name: s("pair"), attributes: vec![] }],
        tables: vec![users_table()],
    };
    let out = g.generate(&schema);
    let ids: Vec<&str> = out.iter().map(|x| x.id.as_str()).collect();
    assert_eq!(ids, vec!["Status", "Pair", "Users"]);
}

#[test]
fn empty_schema_gives_nothing() {
    let g = Generator::new(Options::default());
    let schema = Schema { enumerations: vec![], composite_types: vec![], tables: vec![] };
    assert!(g.generate(&schema).is_empty());
}

#[test]
fn default_options() {
    let o = Options::default();
    assert!(!o.singular);
    assert_eq!(o.framework, Framework::Plain);
}

#[test]
fn singular_name_is_stable() {
    let g = Generator::new(options(true, Framework::Plain));
    for name in ["users", "categories", "boxes", "people_statuses", "user"] {
        let once = g.format_name(name);
        let twice = g.format_name(&once);
        assert_eq!(once, twice);
    }
    assert_eq!(g.format_name("users"), "user");
    let plain = Generator::new(options(false, Framework::Plain));
    assert_eq!(plain.format_name("users"), "users");
}

#[test]
fn each_kind_maps_with_its_import() {
    let cases: Vec<(&str, &str, Vec<&str>)> = vec![
        ("uuid", "Uuid", vec!["uuid::Uuid"]),
        ("date", "NaiveDate", vec!["chrono::NaiveDate"]),
        ("time", "NaiveTime", vec!["chrono::NaiveTime"]),
        ("timestamp", "NaiveDateTime", vec!["chrono::NaiveDateTime"]),
        ("timestamptz", "DateTime<Utc>", vec!["chrono::{DateTime, Utc}"]),
        ("interval", "PgInterval", vec!["sqlx::postgres::types::PgInterval"]),
        ("numeric", "Decimal", vec!["rust_decimal::Decimal"]),
        ("inet", "IpNetwork", vec!["ipnetwork::IpNetwork"]),
        ("cidr", "IpNetwork", vec!["ipnetwork::IpNetwork"]),
        ("json", "Value", vec!["serde_json::Value"]),
        ("jsonb", "Value", vec!["serde_json::Value"]),
        ("ltree", "LTree", vec!["postgres_types::LTree"]),
        ("tsquery", "TSQuery", vec!["postgres_types::TSQuery"]),
        ("money", "PgMoney", vec!["sqlx::postgres::types::PgMoney"]),
        ("oid", "Oid", vec!["sqlx::postgres::types::Oid"]),
        ("geometry", "postgis::ewkb::Geometry", vec!["postgis"]),
        ("bool", "bool", vec![]),
        ("int2", "i16", vec![]),
        ("int4", "i32", vec![]),
        ("int8", "i64", vec![]),
        ("float4", "f32", vec![]),
        ("float8", "f64", vec![]),
        ("text", "String", vec![]),
        ("varchar", "String", vec![]),
        ("bytea", "Vec<u8>", vec![]),
    ];
    for (native, text, imports) in cases {
        let (rendered, got, deps) = imports_of(native);
        assert_eq!(rendered, text, "{native}");
        let want: Vec<String> = imports.iter().map(|x| x.to_string()).collect();
        assert_eq!(got, want, "{native}");
        assert!(deps.is_empty(), "{native}");
    }
}

#[test]
fn wrappers_map_and_import() {
    let (t, i, d) = imports_of("tstzrange");
    assert_eq!(t, "PgRange<DateTime<Utc>>");
    assert_eq!(i, vec![s("sqlx::postgres::types::PgRange"), s("chrono::{DateTime, Utc}")]);
    assert!(d.is_empty());
    let (t, i, _) = imports_of("int4range");
    assert_eq!(t, "PgRange<i32>");
    assert_eq!(i, vec![s("sqlx::postgres::types::PgRange")]);
    let (t, i, _) = imports_of("_uuid");
    assert_eq!(t, "Vec<Uuid>");
    assert_eq!(i, vec![s("uuid::Uuid")]);
    let (t, i, _) = imports_of("__int4");
    assert_eq!(t, "Vec<Vec<i32>>");
    assert!(i.is_empty());
    let (t, i, d) = imports_of("_mood");
    assert_eq!(t, "Vec<Mood>");
    assert!(i.is_empty());
    assert_eq!(d, vec![s("Mood")]);
}

#[test]
fn unknown_native_type_is_custom() {
    let (t, i, d) = imports_of("order_status");
    assert_eq!(t, "OrderStatus");
    assert!(i.is_empty());
    assert_eq!(d, vec![s("OrderStatus")]);
    assert!(matches!(map_native_type("order_status"), Type::Custom(_)));
}

#[test]
fn optional_type_needs_what_inner_needs() {
    let g = Generator::new(options(false, Framework::Sqlx));
    let t = Type::Optional(Box::new(Type::Vector(Box::new(Type::Uuid))));
    assert_eq!(t.render(), "Option<Vec<Uuid>>");
    assert!(t.is_optional());
    let mut snippet = Snippet::new(s("X"));
    g.add_type_imports(&mut snippet, &t);
    assert_eq!(snippet.imports, vec![s("uuid::Uuid")]);
    g.add_framework_attribute(&t, &mut snippet);
    assert_eq!(snippet.code, "    #[sqlx(default)]\n");
    let plain = Generator::new(options(false, Framework::Plain));
    let mut other = Snippet::new(s("Y"));
    plain.add_framework_attribute(&t, &mut other);
    assert_eq!(other.code, "");
}

#[test]
fn custom_names_are_classified() {
    assert_eq!(classify_custom("postgis::ewkb::Point"), CustomKind::External);
    assert_eq!(classify_custom("Oid"), CustomKind::Reserved);
    assert_eq!(classify_custom("std::net::IpAddr"), CustomKind::Qualified);
    assert_eq!(classify_custom("Address"), CustomKind::Local);
    let g = Generator::new(options(false, Framework::Plain));
    let mut snippet = Snippet::new(s("X"));
    g.add_type_imports(&mut snippet, &Type::Custom(s("std::net::IpAddr")));
    assert!(snippet.imports.is_empty());
    assert!(snippet.dependencies.is_empty());
}

#[test]
fn duplicate_imports_are_kept_once() {
    let mut snippet = Snippet::new(s("X"));
    snippet.add_import("uuid::Uuid");
    snippet.add_import("chrono::NaiveDate");
    snippet.add_import("uuid::Uuid");
    snippet.add_dependency("Address");
    snippet.add_dependency("Address");
    assert_eq!(snippet.imports, vec![s("uuid::Uuid"), s("chrono::NaiveDate")]);
    assert_eq!(snippet.dependencies, vec![s("Address")]);
}

#[test]
fn finalize_puts_header_first() {
    let mut snippet = Snippet::new(s("X"));
    snippet.push_code("body");
    snippet.add_dependency("Address");
    snippet.add_import("uuid::Uuid");
    snippet.finalize();
    assert_eq!(snippet.code, "use uuid::Uuid;\nuse super::Address;\n\nbody");
    let mut bare = Snippet::new(s("Y"));
    bare.push_code("body");
    bare.finalize();
    assert_eq!(bare.code, "body");
}

#[test]
fn table_derive_line() {
    let mut a = Snippet::new(s("X"));
    Generator::new(options(false, Framework::Plain)).add_framework_macros(&mut a);
    assert_eq!(a.code, "#[derive(Debug, Clone)]\n");
    let mut b = Snippet::new(s("X"));
    Generator::new(options(false, Framework::Sqlx)).add_framework_macros(&mut b);
    assert_eq!(b.code, "#[derive(Debug, Clone, sqlx::FromRow)]\n");
}

#[test]
fn code_from_lists_keep_order() {
    let g = Generator::new(options(false, Framework::Plain));
    let enums = vec![status_enum(), Enum { name: s("mood"), values: vec![] }];
    let out = g.code_from_enums(&enums);
    assert_eq!(out.len(), 2);
    assert_eq!(out[1].code, "#[derive(Debug, Clone, PartialEq, Eq)]\npub enum Mood {\n}");
    let tables = vec![users_table()];
    assert_eq!(g.code_from_tables(&tables)[0].id, "Users");
    let comps = vec![CompositeType { name: s("pair"), attributes: vec![] }];
    assert_eq!(g.code_from_composites(&comps)[0].code, "#[derive(Debug, Clone)]\npub struct Pair {\n}");
}
