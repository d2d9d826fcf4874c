//! Assembly of one declaration per schema entity.

use vstd::prelude::*;
use vstd::string::StringExecFns;
use crate::naming::{pascal_case, pascal_of, singular, singular_of};
use crate::schema::{
    composite_models, enum_models, table_models, AttributeModel, ColumnModel, CompositeModel,
    CompositeType, Enum, EnumModel, Schema, SchemaModel, Table, TableModel,
};
use crate::snippet::{
    header, lemma_with_items_concat, with_item, with_items, Snippet, SnippetView,
};
use crate::text::{contains_path_separator, has_path_separator, starts_with, str_eq};
use crate::types::{map_native_type, native_type, type_text, Type, TypeModel};

verus! {

/// The persistence-framework convention that generated code follows.
#[derive(Debug, Clone, Copy, PartialEq, Eq, Structural)]
pub enum Framework {
    Plain,
    Sqlx,
}

/// Options that shape the generated code.
///
/// `singular` turns plural composite and table names into singular
/// declaration names; `framework` selects the decorations added.
#[derive(Debug, Clone, Copy, PartialEq, Eq, Structural)]
pub struct Options {
    pub singular: bool,
    pub framework: Framework,
}

impl Default for Options {
    fn default() -> (r: Options)
        ensures
            r == (Options { singular: false, framework: Framework::Plain }),
    {
        Options { singular: false, framework: Framework::Plain }
    }
}

/// How a custom type name is resolved in a declaration's header.
#[derive(Debug, Clone, Copy, PartialEq, Eq, Structural)]
pub enum CustomKind {
    /// A type of an outside package, imported from that package's root.
    External,
    /// A type that the persistence framework reserves.
    Reserved,
    /// A type of some other path, used as written.
    Qualified,
    /// Another generated declaration, referred to as a sibling.
    Local,
}

/// The classification of a custom type name.
pub open spec fn custom_kind(name: Seq<char>) -> CustomKind {
    if "postgis::"@.is_prefix_of(name) {
        CustomKind::External
    } else if name == "Oid"@ {
        CustomKind::Reserved
    } else if has_path_separator(name) {
        CustomKind::Qualified
    } else {
        CustomKind::Local
    }
}

/// Classifies a custom type name.
pub fn classify_custom(name: &str) -> (r: CustomKind)
    ensures
        r == custom_kind(name@),
{
    if starts_with(name, "postgis::") {
        CustomKind::External
    } else if str_eq(name, "Oid") {
        CustomKind::Reserved
    } else if contains_path_separator(name) {
        CustomKind::Qualified
    } else {
        CustomKind::Local
    }
}

/// The outside imports that a type needs, in order of first use.
pub open spec fn imports_of(t: TypeModel) -> Seq<Seq<char>>
    decreases t,
{
    match t {
        TypeModel::Uuid => seq!["uuid::Uuid"@],
        TypeModel::Date => seq!["chrono::NaiveDate"@],
        TypeModel::Time => seq!["chrono::NaiveTime"@],
        TypeModel::Timestamp => seq!["chrono::NaiveDateTime"@],
        TypeModel::TimestampWithTz => seq!["chrono::{DateTime, Utc}"@],
        TypeModel::Interval => seq!["sqlx::postgres::types::PgInterval"@],
        TypeModel::Decimal => seq!["rust_decimal::Decimal"@],
        TypeModel::IpNetwork => seq!["ipnetwork::IpNetwork"@],
        TypeModel::Json => seq!["serde_json::Value"@],
        TypeModel::Tree => seq!["postgres_types::LTree"@],
        TypeModel::Query => seq!["postgres_types::TSQuery"@],
        TypeModel::Money => seq!["sqlx::postgres::types::PgMoney"@],
        TypeModel::Optional(b) => imports_of(*b),
        TypeModel::Vector(b) => imports_of(*b),
        TypeModel::Range(b) => seq!["sqlx::postgres::types::PgRange"@] + imports_of(*b),
        TypeModel::Custom(n) => match custom_kind(n) {
            CustomKind::External => seq!["postgis"@],
            CustomKind::Reserved => seq!["sqlx::postgres::types::Oid"@],
            _ => Seq::empty(),
        },
        TypeModel::Primitive(_) => Seq::empty(),
    }
}

/// The sibling declarations that a type refers to, in order of first use.
pub open spec fn dependencies_of(t: TypeModel) -> Seq<Seq<char>>
    decreases t,
{
    match t {
        TypeModel::Optional(b) => dependencies_of(*b),
        TypeModel::Vector(b) => dependencies_of(*b),
        TypeModel::Range(b) => dependencies_of(*b),
        TypeModel::Custom(n) => if custom_kind(n) == CustomKind::Local {
            seq![n]
        } else {
            Seq::empty()
        },
        _ => Seq::empty(),
    }
}

/// `s` with the imports and sibling references that `t` needs.
pub open spec fn with_type_needs(s: SnippetView, t: TypeModel) -> SnippetView {
    SnippetView {
        imports: with_items(s.imports, imports_of(t)),
        dependencies: with_items(s.dependencies, dependencies_of(t)),
        ..s
    }
}

proof fn lemma_with_one(acc: Seq<Seq<char>>, x: Seq<char>)
    ensures
        with_items(acc, seq![x]) == with_item(acc, x),
{
    assert(seq![x].drop_last() =~= Seq::<Seq<char>>::empty());
    assert(with_items(acc, Seq::<Seq<char>>::empty()) == acc);
}

/// The derive line of an enumerated type's declaration.
pub open spec fn enum_derive(f: Framework) -> Seq<char> {
    match f {
        Framework::Plain => "#[derive(Debug, Clone, PartialEq, Eq)]\n"@,
        Framework::Sqlx => "#[derive(Debug, Clone, PartialEq, Eq, sqlx::Type)]\n"@,
    }
}

/// The derive line of a composite type's declaration.
pub open spec fn composite_derive(f: Framework) -> Seq<char> {
    match f {
        Framework::Plain => "#[derive(Debug, Clone)]\n"@,
        Framework::Sqlx => "#[derive(Debug, Clone, sqlx::Type)]\n"@,
    }
}

/// The derive line of a table's declaration.
pub open spec fn table_derive(f: Framework) -> Seq<char> {
    match f {
        Framework::Plain => "#[derive(Debug, Clone)]\n"@,
        Framework::Sqlx => "#[derive(Debug, Clone, sqlx::FromRow)]\n"@,
    }
}

/// The marker placed above a field of type `t`: default-when-absent for
/// an optional field under the persistence framework, nothing otherwise.
pub open spec fn field_attribute(f: Framework, t: TypeModel) -> Seq<char> {
    if f == Framework::Sqlx && t is Optional {
        "    #[sqlx(default)]\n"@
    } else {
        Seq::empty()
    }
}

/// The declaration line of a field.
pub open spec fn field_line(name: Seq<char>, t: TypeModel) -> Seq<char> {
    "    pub "@ + name + ": "@ + type_text(t) + ",\n"@
}

/// `s` extended by the field `name` of type `t`.
pub open spec fn with_field(s: SnippetView, f: Framework, name: Seq<char>, t: TypeModel) -> SnippetView {
    let n = with_type_needs(s, t);
    SnippetView { code: s.code + field_attribute(f, t) + field_line(name, t), ..n }
}

/// The member lines of an enumerated type for one value: under the
/// persistence framework a rename marker with the value as written in the
/// schema, then the case-converted member name.
pub open spec fn enum_member(f: Framework, value: Seq<char>) -> Seq<char> {
    (if f == Framework::Sqlx {
        "    #[sqlx(rename = \""@ + value + "\")]\n"@
    } else {
        Seq::empty()
    }) + "    "@ + pascal_of(value) + ",\n"@
}

/// The member lines of an enumerated type, in order.
pub open spec fn enum_members(f: Framework, values: Seq<Seq<char>>) -> Seq<char>
    decreases values.len(),
{
    if values.len() == 0 {
        Seq::empty()
    } else {
        enum_members(f, values.drop_last()) + enum_member(f, values.last())
    }
}

/// The declaration generated for an enumerated type, before its header.
pub open spec fn enum_snippet(o: Options, e: EnumModel) -> SnippetView {
    let name = pascal_of(e.name);
    SnippetView {
        id: name,
        code: enum_derive(o.framework) + "pub enum "@ + name + " {\n"@ + enum_members(
            o.framework,
            e.values,
        ) + "}"@,
        imports: Seq::empty(),
        dependencies: Seq::empty(),
    }
}

/// A raw schema name, made singular when the options ask for it.
pub open spec fn formatted_name(o: Options, raw: Seq<char>) -> Seq<char> {
    if o.singular {
        singular_of(raw)
    } else {
        raw
    }
}

/// The declaration name of a composite type or a table.
pub open spec fn declaration_name(o: Options, raw: Seq<char>) -> Seq<char> {
    pascal_of(formatted_name(o, raw))
}

/// A struct declaration opened with the derive line `derive`.
pub open spec fn struct_start(derive: Seq<char>, name: Seq<char>) -> SnippetView {
    SnippetView {
        id: name,
        code: derive + "pub struct "@ + name + " {\n"@,
        imports: Seq::empty(),
        dependencies: Seq::empty(),
    }
}

/// `s` with its declaration closed.
pub open spec fn closed(s: SnippetView) -> SnippetView {
    SnippetView { code: s.code + "}"@, ..s }
}

/// The type of a composite type's attribute.
pub open spec fn attribute_type(a: AttributeModel) -> TypeModel {
    native_type(a.data_type)
}

/// `s` extended by the fields for `attrs`, in order.
pub open spec fn with_attributes(s: SnippetView, f: Framework, attrs: Seq<AttributeModel>) -> SnippetView
    decreases attrs.len(),
{
    if attrs.len() == 0 {
        s
    } else {
        with_field(
            with_attributes(s, f, attrs.drop_last()),
            f,
            attrs.last().name,
            attribute_type(attrs.last()),
        )
    }
}

/// The declaration generated for a composite type, before its header.
pub open spec fn composite_snippet(o: Options, c: CompositeModel) -> SnippetView {
    closed(
        with_attributes(
            struct_start(composite_derive(o.framework), declaration_name(o, c.name)),
            o.framework,
            c.attributes,
        ),
    )
}

/// The type of a column: its native type, optional when it is nullable.
pub open spec fn column_type(c: ColumnModel) -> TypeModel {
    if c.is_nullable {
        TypeModel::Optional(Box::new(native_type(c.udt_name)))
    } else {
        native_type(c.udt_name)
    }
}

/// `s` extended by the fields for `cols`, in order.
pub open spec fn with_columns(s: SnippetView, f: Framework, cols: Seq<ColumnModel>) -> SnippetView
    decreases cols.len(),
{
    if cols.len() == 0 {
        s
    } else {
        with_field(with_columns(s, f, cols.drop_last()), f, cols.last().name, column_type(cols.last()))
    }
}

/// The declaration generated for a table, before its header.
pub open spec fn table_snippet(o: Options, t: TableModel) -> SnippetView {
    closed(
        with_columns(
            struct_start(table_derive(o.framework), declaration_name(o, t.name)),
            o.framework,
            t.columns,
        ),
    )
}

/// `s` with its header block in front of its body.
pub open spec fn finalized(s: SnippetView) -> SnippetView {
    SnippetView { code: header(s.imports, s.dependencies) + s.code, ..s }
}

/// The models of a sequence of snippets.
pub open spec fn snippet_views(v: Seq<Snippet>) -> Seq<SnippetView> {
    v.map_values(|s: Snippet| s@)
}

/// The declarations for enumerated types, in order, before their headers.
pub open spec fn enum_snippets(o: Options, enums: Seq<EnumModel>) -> Seq<SnippetView> {
    enums.map_values(|e: EnumModel| enum_snippet(o, e))
}

/// The declarations for composite types, in order, before their headers.
pub open spec fn composite_snippets(o: Options, composites: Seq<CompositeModel>) -> Seq<SnippetView> {
    composites.map_values(|c: CompositeModel| composite_snippet(o, c))
}

/// The declarations for tables, in order, before their headers.
pub open spec fn table_snippets(o: Options, tables: Seq<TableModel>) -> Seq<SnippetView> {
    tables.map_values(|t: TableModel| table_snippet(o, t))
}

/// Each of `v`, finalized.
pub open spec fn all_finalized(v: Seq<SnippetView>) -> Seq<SnippetView> {
    v.map_values(|s: SnippetView| finalized(s))
}

/// Everything generated from a schema: the enumerated types, then the
/// composite types, then the tables, each in schema order and finalized.
pub open spec fn generated(o: Options, schema: SchemaModel) -> Seq<SnippetView> {
    all_finalized(
        enum_snippets(o, schema.enumerations) + composite_snippets(o, schema.composite_types)
            + table_snippets(o, schema.tables),
    )
}

/// The generator of declarations.
pub struct Generator {
    pub options: Options,
}

impl Generator {
    /// A generator with the given options.
    pub fn new(options: Options) -> (r: Generator)
        ensures
            r.options == options,
    {
        Generator { options }
    }

    /// Records in `snippet` what the type `t` needs: an import for each
    /// library-provided type, a sibling reference for each local custom type.
    pub fn add_type_imports(&self, snippet: &mut Snippet, t: &Type)
        ensures
            final(snippet)@ == with_type_needs(old(snippet)@, t@),
        decreases t,
    {
        let ghost s0 = snippet@;
        proof {
            lemma_with_one(s0.imports, imports_of(t@).first());
        }
        match t {
            Type::Uuid => snippet.add_import("uuid::Uuid"),
            Type::Date => snippet.add_import("chrono::NaiveDate"),
            Type::Time => snippet.add_import("chrono::NaiveTime"),
            Type::Timestamp => snippet.add_import("chrono::NaiveDateTime"),
            Type::TimestampWithTz => snippet.add_import("chrono::{DateTime, Utc}"),
            Type::Interval => snippet.add_import("sqlx::postgres::types::PgInterval"),
            Type::Decimal => snippet.add_import("rust_decimal::Decimal"),
            Type::IpNetwork => snippet.add_import("ipnetwork::IpNetwork"),
            Type::Json => snippet.add_import("serde_json::Value"),
            Type::Tree => snippet.add_import("postgres_types::LTree"),
            Type::Query => snippet.add_import("postgres_types::TSQuery"),
            Type::Money => snippet.add_import("sqlx::postgres::types::PgMoney"),
            Type::Optional(inner) => self.add_type_imports(snippet, inner),
            Type::Vector(inner) => self.add_type_imports(snippet, inner),
            Type::Range(inner) => {
                snippet.add_import("sqlx::postgres::types::PgRange");
                self.add_type_imports(snippet, inner);
                proof {
                    lemma_with_items_concat(
                        s0.imports,
                        seq!["sqlx::postgres::types::PgRange"@],
                        imports_of(inner@),
                    );
                }
            },
            Type::Custom(name) => {
                proof {
                    lemma_with_one(s0.dependencies, name@);
                }
                match classify_custom(name.as_str()) {
                    CustomKind::External => snippet.add_import("postgis"),
                    CustomKind::Reserved => snippet.add_import("sqlx::postgres::types::Oid"),
                    CustomKind::Qualified => {},
                    CustomKind::Local => snippet.add_dependency(name.as_str()),
                }
            },
            Type::Primitive(_) => {},
        }
        assert(snippet@ == with_type_needs(s0, t@));
    }

    /// Adds the derive line of a table declaration.
    pub fn add_framework_macros(&self, snippet: &mut Snippet)
        ensures
            final(snippet)@ == (SnippetView {
                code: old(snippet)@.code + table_derive(self.options.framework),
                ..old(snippet)@
            }),
    {
        match self.options.framework {
            Framework::Plain => snippet.push_code("#[derive(Debug, Clone)]\n"),
            Framework::Sqlx => snippet.push_code("#[derive(Debug, Clone, sqlx::FromRow)]\n"),
        }
    }

    /// Adds the marker that a field of type `t` needs, if any.
    pub fn add_framework_attribute(&self, t: &Type, snippet: &mut Snippet)
        ensures
            final(snippet)@ == (SnippetView {
                code: old(snippet)@.code + field_attribute(self.options.framework, t@),
                ..old(snippet)@
            }),
    {
        if self.options.framework == Framework::Sqlx && t.is_optional() {
            snippet.push_code("    #[sqlx(default)]\n");
        } else {
            assert(snippet.code@ =~= snippet.code@ + Seq::<char>::empty());
        }
    }

    /// A raw schema name, made singular when the options ask for it.
    pub fn format_name(&self, name: &str) -> (r: String)
        ensures
            r@ == formatted_name(self.options, name@),
    {
        if self.options.singular {
            singular(name)
        } else {
            String::from_str(name)
        }
    }

    /// Adds the field `name` of type `t`, with what its type needs.
    pub fn add_field(&self, snippet: &mut Snippet, name: &str, t: &Type)
        ensures
            final(snippet)@ == with_field(old(snippet)@, self.options.framework, name@, t@),
    {
        let ghost s0 = snippet@;
        self.add_type_imports(snippet, t);
        self.add_framework_attribute(t, snippet);
        snippet.push_code("    pub ");
        snippet.push_code(name);
        snippet.push_code(": ");
        let rendered = t.render();
        snippet.push_code(rendered.as_str());
        snippet.push_code(",\n");
        assert(snippet@.code =~= s0.code + field_attribute(self.options.framework, t@) + field_line(name@, t@));
    }

    /// The declaration for one enumerated type, before its header.
    pub fn enum_code(&self, e: &Enum) -> (r: Snippet)
        ensures
            r@ == enum_snippet(self.options, e@),
    {
        let f = self.options.framework;
        let name = pascal_case(e.name.as_str());
        let mut snippet = Snippet::new(name.clone());
        match f {
            Framework::Plain => snippet.push_code("#[derive(Debug, Clone, PartialEq, Eq)]\n"),
            Framework::Sqlx => snippet.push_code("#[derive(Debug, Clone, PartialEq, Eq, sqlx::Type)]\n"),
        }
        snippet.push_code("pub enum ");
        snippet.push_code(name.as_str());
        snippet.push_code(" {\n");
        let ghost start = snippet@.code;
        let mut k: usize = 0;
        while k < e.values.len()
            invariant
                k <= e.values@.len(),
                f == self.options.framework,
                snippet@ == (SnippetView {
                    id: name@,
                    code: start + enum_members(f, e@.values.subrange(0, k as int)),
                    imports: Seq::empty(),
                    dependencies: Seq::empty(),
                }),
            decreases e.values@.len() - k,
        {
            let ghost before = snippet@.code;
            let value = &e.values[k];
            if f == Framework::Sqlx {
                snippet.push_code("    #[sqlx(rename = \"");
                snippet.push_code(value.name.as_str());
                snippet.push_code("\")]\n");
            }
            let member = pascal_case(value.name.as_str());
            snippet.push_code("    ");
            snippet.push_code(member.as_str());
            snippet.push_code(",\n");
            assert(snippet@.code =~= before + enum_member(f, value.name@));
            let ghost next = e@.values.subrange(0, k + 1);
            assert(next.drop_last() =~= e@.values.subrange(0, k as int));
            assert(next.last() == value.name@);
            assert(enum_members(f, next) == enum_members(f, next.drop_last()) + enum_member(f, value.name@));
            assert(snippet@.code =~= start + enum_members(f, next));
            k = k + 1;
        }
        assert(e@.values.subrange(0, k as int) =~= e@.values);
        snippet.push_code("}");
        assert(snippet@.code =~= enum_snippet(self.options, e@).code);
        snippet
    }

    /// The declaration for one composite type, before its header.
    pub fn composite_code(&self, c: &CompositeType) -> (r: Snippet)
        ensures
            r@ == composite_snippet(self.options, c@),
    {
        let f = self.options.framework;
        let formatted = self.format_name(c.name.as_str());
        let name = pascal_case(formatted.as_str());
        let mut snippet = Snippet::new(name.clone());
        match f {
            Framework::Plain => snippet.push_code("#[derive(Debug, Clone)]\n"),
            Framework::Sqlx => snippet.push_code("#[derive(Debug, Clone, sqlx::Type)]\n"),
        }
        snippet.push_code("pub struct ");
        snippet.push_code(name.as_str());
        snippet.push_code(" {\n");
        let ghost start = snippet@;
        assert(start == struct_start(composite_derive(f), name@)) by {
            assert(start.code =~= struct_start(composite_derive(f), name@).code);
        }
        let mut k: usize = 0;
        while k < c.attributes.len()
            invariant
                k <= c.attributes@.len(),
                f == self.options.framework,
                snippet@ == with_attributes(start, f, c@.attributes.subrange(0, k as int)),
            decreases c.attributes@.len() - k,
        {
            let attr = &c.attributes[k];
            let t = map_native_type(attr.data_type.as_str());
            self.add_field(&mut snippet, attr.name.as_str(), &t);
            let ghost next = c@.attributes.subrange(0, k + 1);
            assert(next.drop_last() =~= c@.attributes.subrange(0, k as int));
            assert(next.last() == attr@);
            k = k + 1;
        }
        assert(c@.attributes.subrange(0, k as int) =~= c@.attributes);
        snippet.push_code("}");
        snippet
    }

    /// The declaration for one table, before its header.
    pub fn table_code(&self, table: &Table) -> (r: Snippet)
        ensures
            r@ == table_snippet(self.options, table@),
    {
        let f = self.options.framework;
        let formatted = self.format_name(table.name.as_str());
        let name = pascal_case(formatted.as_str());
        let mut snippet = Snippet::new(name.clone());
        self.add_framework_macros(&mut snippet);
        snippet.push_code("pub struct ");
        snippet.push_code(name.as_str());
        snippet.push_code(" {\n");
        let ghost start = snippet@;
        assert(start == struct_start(table_derive(f), name@)) by {
            assert(start.code =~= struct_start(table_derive(f), name@).code);
        }
        let mut k: usize = 0;
        while k < table.columns.len()
            invariant
                k <= table.columns@.len(),
                f == self.options.framework,
                snippet@ == with_columns(start, f, table@.columns.subrange(0, k as int)),
            decreases table.columns@.len() - k,
        {
            let column = &table.columns[k];
            let mut t = map_native_type(column.udt_name.as_str());
            if column.is_nullable {
                t = Type::Optional(Box::new(t));
            }
            assert(t@ == column_type(column@));
            self.add_field(&mut snippet, column.name.as_str(), &t);
            let ghost next = table@.columns.subrange(0, k + 1);
            assert(next.drop_last() =~= table@.columns.subrange(0, k as int));
            assert(next.last() == column@);
            k = k + 1;
        }
        assert(table@.columns.subrange(0, k as int) =~= table@.columns);
        snippet.push_code("}");
        snippet
    }

    /// One declaration per enumerated type, in order, before their headers.
    pub fn code_from_enums(&self, enums: &[Enum]) -> (r: Vec<Snippet>)
        ensures
            snippet_views(r@) == enum_snippets(self.options, enum_models(enums@)),
    {
        let mut out: Vec<Snippet> = Vec::new();
        let mut i: usize = 0;
        while i < enums.len()
            invariant
                i <= enums@.len(),
                out@.len() == i,
                snippet_views(out@) == enum_snippets(self.options, enum_models(enums@).subrange(0, i as int)),
            decreases enums@.len() - i,
        {
            let item = self.enum_code(&enums[i]);
            let ghost prev = out@;
            out.push(item);
            assert forall|j: int| 0 <= j < i + 1 implies snippet_views(out@)[j] == enum_snippets(
                self.options,
                enum_models(enums@).subrange(0, i + 1),
            )[j] by {
                if j < i {
                    assert(out@[j] == prev[j]);
                    assert(snippet_views(prev)[j] == enum_snippets(self.options, enum_models(enums@).subrange(0, i as int))[j]);
                }
            }
            assert(snippet_views(out@) =~= enum_snippets(self.options, enum_models(enums@).subrange(0, i + 1)));
            i = i + 1;
        }
        assert(enum_models(enums@).subrange(0, i as int) =~= enum_models(enums@));
        out
    }

    /// One declaration per composite type, in order, before their headers.
    pub fn code_from_composites(&self, composites: &[CompositeType]) -> (r: Vec<Snippet>)
        ensures
            snippet_views(r@) == composite_snippets(self.options, composite_models(composites@)),
    {
        let mut out: Vec<Snippet> = Vec::new();
        let mut i: usize = 0;
        while i < composites.len()
            invariant
                i <= composites@.len(),
                out@.len() == i,
                snippet_views(out@) == composite_snippets(self.options, composite_models(composites@).subrange(0, i as int)),
            decreases composites@.len() - i,
        {
            let item = self.composite_code(&composites[i]);
            let ghost prev = out@;
            out.push(item);
            assert forall|j: int| 0 <= j < i + 1 implies snippet_views(out@)[j] == composite_snippets(
                self.options,
                composite_models(composites@).subrange(0, i + 1),
            )[j] by {
                if j < i {
                    assert(out@[j] == prev[j]);
                    assert(snippet_views(prev)[j] == composite_snippets(self.options, composite_models(composites@).subrange(0, i as int))[j]);
                }
            }
            assert(snippet_views(out@) =~= composite_snippets(self.options, composite_models(composites@).subrange(0, i + 1)));
            i = i + 1;
        }
        assert(composite_models(composites@).subrange(0, i as int) =~= composite_models(composites@));
        out
    }

    /// One declaration per table, in order, before their headers.
    pub fn code_from_tables(&self, tables: &[Table]) -> (r: Vec<Snippet>)
        ensures
            snippet_views(r@) == table_snippets(self.options, table_models(tables@)),
    {
        let mut out: Vec<Snippet> = Vec::new();
        let mut i: usize = 0;
        while i < tables.len()
            invariant
                i <= tables@.len(),
                out@.len() == i,
                snippet_views(out@) == table_snippets(self.options, table_models(tables@).subrange(0, i as int)),
            decreases tables@.len() - i,
        {
            let item = self.table_code(&tables[i]);
            let ghost prev = out@;
            out.push(item);
            assert forall|j: int| 0 <= j < i + 1 implies snippet_views(out@)[j] == table_snippets(
                self.options,
                table_models(tables@).subrange(0, i + 1),
            )[j] by {
                if j < i {
                    assert(out@[j] == prev[j]);
                    assert(snippet_views(prev)[j] == table_snippets(self.options, table_models(tables@).subrange(0, i as int))[j]);
                }
            }
            assert(snippet_views(out@) =~= table_snippets(self.options, table_models(tables@).subrange(0, i + 1)));
            i = i + 1;
        }
        assert(table_models(tables@).subrange(0, i as int) =~= table_models(tables@));
        out
    }

    /// All declarations for a schema, each with its header block: the
    /// enumerated types, then the composite types, then the tables.
    pub fn generate(&self, schema: &Schema) -> (r: Vec<Snippet>)
        ensures
            snippet_views(r@) == generated(self.options, schema@),
    {
        let mut snippets = self.code_from_enums(schema.enumerations.as_slice());
        let mut composites = self.code_from_composites(schema.composite_types.as_slice());
        let mut tables = self.code_from_tables(schema.tables.as_slice());
        snippets.append(&mut composites);
        snippets.append(&mut tables);
        let ghost before = snippet_views(snippets@);
        assert(before =~= enum_snippets(self.options, schema@.enumerations) + composite_snippets(
            self.options,
            schema@.composite_types,
        ) + table_snippets(self.options, schema@.tables));
        let mut i: usize = 0;
        while i < snippets.len()
            invariant
                i <= snippets@.len(),
                snippets@.len() == before.len(),
                forall|j: int| 0 <= j < i ==> #[trigger] snippets@[j]@ == finalized(before[j]),
                forall|j: int| i <= j < before.len() ==> #[trigger] snippets@[j]@ == before[j],
            decreases before.len() - i,
        {
            snippets[i].finalize();
            i = i + 1;
        }
        assert(snippet_views(snippets@) =~= generated(self.options, schema@));
        snippets
    }
}

} // verus!
