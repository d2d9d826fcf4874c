//! Properties of generated declarations, proved over the specifications of
//! the generator.

use vstd::prelude::*;
use crate::generator::{
    column_type, composite_derive, composite_snippet, custom_kind, declaration_name,
    dependencies_of, enum_member, enum_members, field_attribute, finalized,
    formatted_name, generated, imports_of, snippet_views, struct_start, with_attributes,
    CustomKind, Framework, Options,
};
use crate::naming::pascal_of;
use crate::schema::{ColumnModel, CompositeModel, Schema};
use crate::snippet::{dependency_line, dependency_lines, header, import_lines, with_items, Snippet};
use crate::types::{native_type, TypeModel};

verus! {

/// Wrappers add nothing of their own but a range's container: an optional
/// or an array needs what its element needs, a range needs its container
/// import and then what its element needs.
pub proof fn lemma_wrapper_needs(t: TypeModel)
    ensures
        imports_of(TypeModel::Optional(Box::new(t))) == imports_of(t),
        imports_of(TypeModel::Vector(Box::new(t))) == imports_of(t),
        imports_of(TypeModel::Range(Box::new(t))) == seq!["sqlx::postgres::types::PgRange"@]
            + imports_of(t),
        dependencies_of(TypeModel::Optional(Box::new(t))) == dependencies_of(t),
        dependencies_of(TypeModel::Vector(Box::new(t))) == dependencies_of(t),
        dependencies_of(TypeModel::Range(Box::new(t))) == dependencies_of(t),
{
}

/// A column's type is optional exactly when the column is nullable, and
/// its field carries the default-when-absent marker exactly when it is
/// nullable and the persistence framework is selected.
pub proof fn lemma_nullable_column(f: Framework, c: ColumnModel)
    ensures
        (column_type(c) is Optional) == c.is_nullable,
        c.is_nullable ==> column_type(c) == TypeModel::Optional(Box::new(native_type(c.udt_name))),
        !c.is_nullable ==> column_type(c) == native_type(c.udt_name),
        field_attribute(f, column_type(c)) == if f == Framework::Sqlx && c.is_nullable {
            "    #[sqlx(default)]\n"@
        } else {
            Seq::<char>::empty()
        },
{
    assert(!(native_type(c.udt_name) is Optional));
}

/// Without singular mode a schema name is kept as it is, so formatting it
/// twice gives what formatting it once gives.
pub proof fn lemma_plain_name_kept(o: Options, raw: Seq<char>)
    requires
        !o.singular,
    ensures
        formatted_name(o, raw) == raw,
        formatted_name(o, formatted_name(o, raw)) == formatted_name(o, raw),
{
}

/// The member text of a run of values followed by another run is the text
/// of the first followed by the text of the second.
pub proof fn lemma_enum_members_concat(f: Framework, a: Seq<Seq<char>>, b: Seq<Seq<char>>)
    ensures
        enum_members(f, a + b) == enum_members(f, a) + enum_members(f, b),
    decreases b.len(),
{
    if b.len() == 0 {
        assert(a + b =~= a);
        assert(enum_members(f, a) + enum_members(f, b) =~= enum_members(f, a));
    } else {
        lemma_enum_members_concat(f, a, b.drop_last());
        assert((a + b).drop_last() =~= a + b.drop_last());
        assert(enum_members(f, a + b) =~= enum_members(f, a) + enum_members(f, b));
    }
}

/// Each value of an enumerated type gets its own member text, in place:
/// under the persistence framework one rename marker that carries the
/// value's schema spelling verbatim, then the case-converted member name;
/// otherwise the member name alone.
pub proof fn lemma_enum_member_marker(f: Framework, values: Seq<Seq<char>>, k: int)
    requires
        0 <= k < values.len(),
    ensures
        enum_members(f, values) == enum_members(f, values.subrange(0, k)) + enum_member(
            f,
            values[k],
        ) + enum_members(f, values.subrange(k + 1, values.len() as int)),
        f == Framework::Sqlx ==> enum_member(f, values[k]) == "    #[sqlx(rename = \""@
            + values[k] + "\")]\n"@ + "    "@ + pascal_of(values[k]) + ",\n"@,
        f == Framework::Plain ==> enum_member(f, values[k]) == "    "@ + pascal_of(values[k])
            + ",\n"@,
{
    let pre = values.subrange(0, k);
    let post = values.subrange(k + 1, values.len() as int);
    assert(values =~= pre + seq![values[k]] + post);
    lemma_enum_members_concat(f, pre + seq![values[k]], post);
    lemma_enum_members_concat(f, pre, seq![values[k]]);
    assert(seq![values[k]].drop_last() =~= Seq::<Seq<char>>::empty());
    assert(enum_members(f, Seq::<Seq<char>>::empty()) == Seq::<char>::empty());
    assert(enum_members(f, seq![values[k]]) =~= enum_member(f, values[k]));
    if f == Framework::Plain {
        assert(enum_member(f, values[k]) =~= "    "@ + pascal_of(values[k]) + ",\n"@);
    }
}

/// A composite type whose one attribute names another schema-defined type
/// (a native name that nothing recognises, whose declaration name has no
/// path and is not reserved) needs no import and exactly one sibling
/// reference, to that type's declaration name; its finalized code starts
/// with the reference to it.
pub proof fn lemma_local_reference(o: Options, c: CompositeModel)
    requires
        c.attributes.len() == 1,
        native_type(c.attributes[0].data_type) == TypeModel::Custom(
            pascal_of(c.attributes[0].data_type),
        ),
        custom_kind(pascal_of(c.attributes[0].data_type)) == CustomKind::Local,
        !o.singular,
    ensures
        composite_snippet(o, c).imports == Seq::<Seq<char>>::empty(),
        composite_snippet(o, c).dependencies == seq![
            declaration_name(o, c.attributes[0].data_type),
        ],
        finalized(composite_snippet(o, c)).code == dependency_line(
            declaration_name(o, c.attributes[0].data_type),
        ) + "\n"@ + composite_snippet(o, c).code,
{
    let d = c.attributes[0].data_type;
    let n = pascal_of(d);
    let t = TypeModel::Custom(n);
    let start = struct_start(composite_derive(o.framework), declaration_name(o, c.name));
    assert(c.attributes.drop_last() =~= Seq::<crate::schema::AttributeModel>::empty());
    assert(with_attributes(start, o.framework, c.attributes.drop_last()) == start);
    let s = with_attributes(start, o.framework, c.attributes);
    assert(imports_of(t) =~= Seq::<Seq<char>>::empty());
    assert(dependencies_of(t) =~= seq![n]);
    assert(seq![n].drop_last() =~= Seq::<Seq<char>>::empty());
    assert(with_items(Seq::<Seq<char>>::empty(), Seq::<Seq<char>>::empty()) == Seq::<Seq<char>>::empty());
    assert(!Seq::<Seq<char>>::empty().contains(n));
    assert(with_items(Seq::<Seq<char>>::empty(), seq![n]) =~= seq![n]);
    assert(s.imports =~= Seq::<Seq<char>>::empty());
    assert(s.dependencies =~= seq![n]);
    let deps = seq![n];
    assert(deps.drop_last() =~= Seq::<Seq<char>>::empty());
    assert(import_lines(Seq::<Seq<char>>::empty()) == Seq::<char>::empty());
    assert(dependency_lines(Seq::<Seq<char>>::empty()) == Seq::<char>::empty());
    assert(dependency_lines(deps) =~= dependency_line(n));
    assert(header(Seq::<Seq<char>>::empty(), deps) =~= dependency_line(n) + "\n"@);
}

/// Generation is deterministic: schemas of equal content, under the same
/// options, give declaration lists that are equal character for character,
/// header lines included.
pub proof fn lemma_deterministic(
    o: Options,
    a: Schema,
    b: Schema,
    ra: Seq<Snippet>,
    rb: Seq<Snippet>,
)
    requires
        a@ == b@,
        snippet_views(ra) == generated(o, a@),
        snippet_views(rb) == generated(o, b@),
    ensures
        ra.len() == rb.len(),
        forall|i: int|
            0 <= i < ra.len() ==> #[trigger] ra[i]@ == rb[i]@ && ra[i].code@ == rb[i].code@
                && ra[i].id@ == rb[i].id@,
{
    assert(snippet_views(ra).len() == ra.len());
    assert(snippet_views(rb).len() == rb.len());
    assert forall|i: int| 0 <= i < ra.len() implies #[trigger] ra[i]@ == rb[i]@ && ra[i].code@
        == rb[i].code@ && ra[i].id@ == rb[i].id@ by {
        assert(snippet_views(ra)[i] == ra[i]@);
        assert(snippet_views(rb)[i] == rb[i]@);
    }
}

} // verus!
