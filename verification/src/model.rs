//! The canonical schema model: a closed set of portable type tags and the
//! column / index / foreign-key / table / schema records that reference it.
//!
//! All entities are immutable value objects; the only operations are
//! construction and structural equality. Each executable type has a ghost
//! view (`...View`) over `Seq<char>` and `Seq<...>`, which the contracts of
//! the projector and of the codec speak about.

use vstd::prelude::*;

verus! {

/// Referential action taken on `ON DELETE`.
#[derive(Clone, Copy, PartialEq, Eq, Structural, Debug)]
pub enum DatabaseForeignKeyAction {
    /// Reject the deletion; the check may be deferred.
    NoAction,
    /// Reject the deletion; the check is immediate.
    Restrict,
    /// Delete the referencing rows as well.
    Cascade,
    /// Set the referencing columns to null.
    SetNull,
    /// Set the referencing columns to their default values.
    SetDefault,
}

/// Kind of an index. A table is assumed to carry at most one
/// `PrimaryKey`-kind index; this layer does not enforce that.
#[derive(Clone, Copy, PartialEq, Eq, Structural, Debug)]
pub enum DatabaseIndexType {
    Unique,
    Normal,
    Fulltext,
    PrimaryKey,
}

/// Multiplicity of a column, copied verbatim from the source column.
#[derive(Clone, Copy, PartialEq, Eq, Structural, Debug)]
pub enum DatabaseColumnArity {
    Required,
    Nullable,
    List,
}

/// The closed, portable column type vocabulary. Exactly one tag applies per
/// column. The parameterized variants preserve an optional length or
/// precision exactly as supplied by the source; `None` means the source left
/// it unspecified. `Enum` carries the identifier of an enum already known to
/// the source schema graph; `Unsupported` carries the original raw type
/// description verbatim.
#[derive(Clone, PartialEq, Eq, Debug)]
pub enum DatabaseType {
    SmallInt,
    Int,
    BigInt,
    Float,
    Decimal,
    Boolean,
    Binary,
    Enum(u32),
    Unsupported(String),
    Money,
    Inet,
    Oid,
    Citext,
    Double,
    VarChar(Option<u32>),
    Char(Option<u32>),
    Text,
    ByteA,
    Timestamp(Option<u32>),
    Timestamptz(Option<u32>),
    Date,
    Time(Option<u32>),
    Timetz(Option<u32>),
    Uuid,
    Xml,
    Json,
    JsonB,
}

/// Ghost view of `DatabaseType`: the same tags, with the raw description of
/// `Unsupported` as a character sequence.
pub enum DatabaseTypeView {
    SmallInt,
    Int,
    BigInt,
    Float,
    Decimal,
    Boolean,
    Binary,
    Enum(u32),
    Unsupported(Seq<char>),
    Money,
    Inet,
    Oid,
    Citext,
    Double,
    VarChar(Option<u32>),
    Char(Option<u32>),
    Text,
    ByteA,
    Timestamp(Option<u32>),
    Timestamptz(Option<u32>),
    Date,
    Time(Option<u32>),
    Timetz(Option<u32>),
    Uuid,
    Xml,
    Json,
    JsonB,
}

impl View for DatabaseType {
    type V = DatabaseTypeView;

    open spec fn view(&self) -> DatabaseTypeView {
        match self {
            DatabaseType::SmallInt => DatabaseTypeView::SmallInt,
            DatabaseType::Int => DatabaseTypeView::Int,
            DatabaseType::BigInt => DatabaseTypeView::BigInt,
            DatabaseType::Float => DatabaseTypeView::Float,
            DatabaseType::Decimal => DatabaseTypeView::Decimal,
            DatabaseType::Boolean => DatabaseTypeView::Boolean,
            DatabaseType::Binary => DatabaseTypeView::Binary,
            DatabaseType::Enum(id) => DatabaseTypeView::Enum(*id),
            DatabaseType::Unsupported(raw) => DatabaseTypeView::Unsupported(raw@),
            DatabaseType::Money => DatabaseTypeView::Money,
            DatabaseType::Inet => DatabaseTypeView::Inet,
            DatabaseType::Oid => DatabaseTypeView::Oid,
            DatabaseType::Citext => DatabaseTypeView::Citext,
            DatabaseType::Double => DatabaseTypeView::Double,
            DatabaseType::VarChar(len) => DatabaseTypeView::VarChar(*len),
            DatabaseType::Char(len) => DatabaseTypeView::Char(*len),
            DatabaseType::Text => DatabaseTypeView::Text,
            DatabaseType::ByteA => DatabaseTypeView::ByteA,
            DatabaseType::Timestamp(p) => DatabaseTypeView::Timestamp(*p),
            DatabaseType::Timestamptz(p) => DatabaseTypeView::Timestamptz(*p),
            DatabaseType::Date => DatabaseTypeView::Date,
            DatabaseType::Time(p) => DatabaseTypeView::Time(*p),
            DatabaseType::Timetz(p) => DatabaseTypeView::Timetz(*p),
            DatabaseType::Uuid => DatabaseTypeView::Uuid,
            DatabaseType::Xml => DatabaseTypeView::Xml,
            DatabaseType::Json => DatabaseTypeView::Json,
            DatabaseType::JsonB => DatabaseTypeView::JsonB,
        }
    }
}

/// A column of a table. The name is unique within its owning table.
#[derive(Clone, PartialEq, Eq, Debug)]
pub struct DatabaseColumn {
    pub name: String,
    pub arity: DatabaseColumnArity,
    pub tpe: DatabaseType,
}

#[verifier::ext_equal]
pub struct DatabaseColumnView {
    pub name: Seq<char>,
    pub arity: DatabaseColumnArity,
    pub tpe: DatabaseTypeView,
}

impl View for DatabaseColumn {
    type V = DatabaseColumnView;

    open spec fn view(&self) -> DatabaseColumnView {
        DatabaseColumnView { name: self.name@, arity: self.arity, tpe: self.tpe@ }
    }
}

/// An index over a table. The order of `columns` defines the index key
/// order and is preserved by every operation of this crate.
#[derive(Clone, PartialEq, Eq, Debug)]
pub struct DatabaseIndex {
    pub name: String,
    pub tpe: DatabaseIndexType,
    pub columns: Vec<String>,
}

#[verifier::ext_equal]
pub struct DatabaseIndexView {
    pub name: Seq<char>,
    pub tpe: DatabaseIndexType,
    pub columns: Seq<Seq<char>>,
}

impl View for DatabaseIndex {
    type V = DatabaseIndexView;

    open spec fn view(&self) -> DatabaseIndexView {
        DatabaseIndexView {
            name: self.name@,
            tpe: self.tpe,
            columns: self.columns@.map_values(|s: String| s@),
        }
    }
}

/// A foreign key. `column_names` and `referenced_column_names` have the same
/// length; the order defines the pairwise correspondence (the first
/// constrained column references the first referenced column, and so on).
#[derive(Clone, PartialEq, Eq, Debug)]
pub struct DatabaseForeignKey {
    pub name: String,
    pub table_name: String,
    pub referenced_table_name: String,
    pub column_names: Vec<String>,
    pub referenced_column_names: Vec<String>,
    pub on_delete_action: DatabaseForeignKeyAction,
}

#[verifier::ext_equal]
pub struct DatabaseForeignKeyView {
    pub name: Seq<char>,
    pub table_name: Seq<char>,
    pub referenced_table_name: Seq<char>,
    pub column_names: Seq<Seq<char>>,
    pub referenced_column_names: Seq<Seq<char>>,
    pub on_delete_action: DatabaseForeignKeyAction,
}

impl View for DatabaseForeignKey {
    type V = DatabaseForeignKeyView;

    open spec fn view(&self) -> DatabaseForeignKeyView {
        DatabaseForeignKeyView {
            name: self.name@,
            table_name: self.table_name@,
            referenced_table_name: self.referenced_table_name@,
            column_names: self.column_names@.map_values(|s: String| s@),
            referenced_column_names: self.referenced_column_names@.map_values(|s: String| s@),
            on_delete_action: self.on_delete_action,
        }
    }
}

/// A table: its columns and indexes, in their declared order.
#[derive(Clone, PartialEq, Eq, Debug)]
pub struct DatabaseTable {
    pub name: String,
    pub columns: Vec<DatabaseColumn>,
    pub indexes: Vec<DatabaseIndex>,
}

#[verifier::ext_equal]
pub struct DatabaseTableView {
    pub name: Seq<char>,
    pub columns: Seq<DatabaseColumnView>,
    pub indexes: Seq<DatabaseIndexView>,
}

impl View for DatabaseTable {
    type V = DatabaseTableView;

    open spec fn view(&self) -> DatabaseTableView {
        DatabaseTableView {
            name: self.name@,
            columns: self.columns@.map_values(|c: DatabaseColumn| c@),
            indexes: self.indexes@.map_values(|i: DatabaseIndex| i@),
        }
    }
}

/// A whole canonical schema: tables and foreign keys, in source order.
#[derive(Clone, PartialEq, Eq, Debug)]
pub struct DatabaseSchema {
    pub tables: Vec<DatabaseTable>,
    pub foreign_keys: Vec<DatabaseForeignKey>,
}

#[verifier::ext_equal]
pub struct DatabaseSchemaView {
    pub tables: Seq<DatabaseTableView>,
    pub foreign_keys: Seq<DatabaseForeignKeyView>,
}

impl View for DatabaseSchema {
    type V = DatabaseSchemaView;

    open spec fn view(&self) -> DatabaseSchemaView {
        DatabaseSchemaView {
            tables: self.tables@.map_values(|t: DatabaseTable| t@),
            foreign_keys: self.foreign_keys@.map_values(|f: DatabaseForeignKey| f@),
        }
    }
}

} // verus!
