//! The schema description that declarations are generated from.

use vstd::prelude::*;

verus! {

/// One value of an enumerated type.
#[derive(Debug)]
pub struct EnumValue {
    pub name: String,
}

/// An enumerated type: its name and its values, in order.
#[derive(Debug)]
pub struct Enum {
    pub name: String,
    pub values: Vec<EnumValue>,
}

/// One attribute of a composite type, with its native type name.
#[derive(Debug)]
pub struct Attribute {
    pub name: String,
    pub data_type: String,
}

/// A composite type: its name and its attributes, in order.
#[derive(Debug)]
pub struct CompositeType {
    pub name: String,
    pub attributes: Vec<Attribute>,
}

/// One column of a table, with its native type name and nullability.
#[derive(Debug)]
pub struct Column {
    pub name: String,
    pub udt_name: String,
    pub is_nullable: bool,
}

/// A table: its name and its columns, in order.
#[derive(Debug)]
pub struct Table {
    pub name: String,
    pub columns: Vec<Column>,
}

/// A whole schema: enumerated types, composite types and tables.
#[derive(Debug)]
pub struct Schema {
    pub enumerations: Vec<Enum>,
    pub composite_types: Vec<CompositeType>,
    pub tables: Vec<Table>,
}

/// The model of an [`Enum`]: its name and the names of its values.
pub struct EnumModel {
    pub name: Seq<char>,
    pub values: Seq<Seq<char>>,
}

/// The model of an [`Attribute`].
pub struct AttributeModel {
    pub name: Seq<char>,
    pub data_type: Seq<char>,
}

/// The model of a [`CompositeType`].
pub struct CompositeModel {
    pub name: Seq<char>,
    pub attributes: Seq<AttributeModel>,
}

/// The model of a [`Column`].
pub struct ColumnModel {
    pub name: Seq<char>,
    pub udt_name: Seq<char>,
    pub is_nullable: bool,
}

/// The model of a [`Table`].
pub struct TableModel {
    pub name: Seq<char>,
    pub columns: Seq<ColumnModel>,
}

/// The model of a [`Schema`].
pub struct SchemaModel {
    pub enumerations: Seq<EnumModel>,
    pub composite_types: Seq<CompositeModel>,
    pub tables: Seq<TableModel>,
}

impl View for EnumValue {
    type V = Seq<char>;

    open spec fn view(&self) -> Seq<char> {
        self.name@
    }
}

impl View for Enum {
    type V = EnumModel;

    open spec fn view(&self) -> EnumModel {
        EnumModel { name: self.name@, values: self.values@.map_values(|v: EnumValue| v@) }
    }
}

impl View for Attribute {
    type V = AttributeModel;

    open spec fn view(&self) -> AttributeModel {
        AttributeModel { name: self.name@, data_type: self.data_type@ }
    }
}

impl View for CompositeType {
    type V = CompositeModel;

    open spec fn view(&self) -> CompositeModel {
        CompositeModel { name: self.name@, attributes: self.attributes@.map_values(|a: Attribute| a@) }
    }
}

impl View for Column {
    type V = ColumnModel;

    open spec fn view(&self) -> ColumnModel {
        ColumnModel { name: self.name@, udt_name: self.udt_name@, is_nullable: self.is_nullable }
    }
}

impl View for Table {
    type V = TableModel;

    open spec fn view(&self) -> TableModel {
        TableModel { name: self.name@, columns: self.columns@.map_values(|c: Column| c@) }
    }
}

/// The models of a sequence of enumerated types.
pub open spec fn enum_models(s: Seq<Enum>) -> Seq<EnumModel> {
    s.map_values(|e: Enum| e@)
}

/// The models of a sequence of composite types.
pub open spec fn composite_models(s: Seq<CompositeType>) -> Seq<CompositeModel> {
    s.map_values(|c: CompositeType| c@)
}

/// The models of a sequence of tables.
pub open spec fn table_models(s: Seq<Table>) -> Seq<TableModel> {
    s.map_values(|t: Table| t@)
}

impl View for Schema {
    type V = SchemaModel;

    open spec fn view(&self) -> SchemaModel {
        SchemaModel {
            enumerations: enum_models(self.enumerations@),
            composite_types: composite_models(self.composite_types@),
            tables: table_models(self.tables@),
        }
    }
}

} // verus!
