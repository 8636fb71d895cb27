//! The source schema graph: the fully-resolved, engine-level description of
//! tables, columns, indexes and foreign keys that the projector consumes.
//!
//! The schema-calculation collaborator that produces this graph is outside
//! this crate; it hands over a concretely-typed value of `SqlSchema`. Each
//! column carries an optional *native* type (engine-specific, possibly
//! parameterized) and always carries a *generic family* classification.

use vstd::prelude::*;

verus! {

/// The native type dialect: engine-specific column types, parameterized
/// where the engine allows a length or a precision.
#[derive(Clone, Copy, PartialEq, Eq, Debug)]
pub enum PostgresType {
    SmallInt,
    Integer,
    BigInt,
    Decimal(Option<(u32, u32)>),
    Money,
    Inet,
    Oid,
    Citext,
    Real,
    DoublePrecision,
    VarChar(Option<u32>),
    Char(Option<u32>),
    Text,
    ByteA,
    Timestamp(Option<u32>),
    Timestamptz(Option<u32>),
    Date,
    Time(Option<u32>),
    Timetz(Option<u32>),
    Boolean,
    Bit(Option<u32>),
    VarBit(Option<u32>),
    Uuid,
    Xml,
    Json,
    JsonB,
}

/// The generic, engine-agnostic column type families, used when a column
/// records no native type. `Enum` carries an enum identifier known to the
/// graph; `Unsupported` carries the raw type description.
#[derive(Clone, PartialEq, Eq, Debug)]
pub enum ColumnTypeFamily {
    Int,
    BigInt,
    Float,
    Decimal,
    Boolean,
    Str,
    DateTime,
    Binary,
    Json,
    Uuid,
    Enum(u32),
    Unsupported(String),
}

/// Ghost view of `ColumnTypeFamily`.
pub enum ColumnTypeFamilyView {
    Int,
    BigInt,
    Float,
    Decimal,
    Boolean,
    Str,
    DateTime,
    Binary,
    Json,
    Uuid,
    Enum(u32),
    Unsupported(Seq<char>),
}

impl View for ColumnTypeFamily {
    type V = ColumnTypeFamilyView;

    open spec fn view(&self) -> ColumnTypeFamilyView {
        match self {
            ColumnTypeFamily::Int => ColumnTypeFamilyView::Int,
            ColumnTypeFamily::BigInt => ColumnTypeFamilyView::BigInt,
            ColumnTypeFamily::Float => ColumnTypeFamilyView::Float,
            ColumnTypeFamily::Decimal => ColumnTypeFamilyView::Decimal,
            ColumnTypeFamily::Boolean => ColumnTypeFamilyView::Boolean,
            ColumnTypeFamily::Str => ColumnTypeFamilyView::Str,
            ColumnTypeFamily::DateTime => ColumnTypeFamilyView::DateTime,
            ColumnTypeFamily::Binary => ColumnTypeFamilyView::Binary,
            ColumnTypeFamily::Json => ColumnTypeFamilyView::Json,
            ColumnTypeFamily::Uuid => ColumnTypeFamilyView::Uuid,
            ColumnTypeFamily::Enum(id) => ColumnTypeFamilyView::Enum(*id),
            ColumnTypeFamily::Unsupported(raw) => ColumnTypeFamilyView::Unsupported(raw@),
        }
    }
}

impl ColumnTypeFamily {
    /// An explicit copy; the derived clone would tell the verifier nothing.
    pub fn duplicate(&self) -> (r: ColumnTypeFamily)
        ensures
            r@ == self@,
    {
        match self {
            ColumnTypeFamily::Int => ColumnTypeFamily::Int,
            ColumnTypeFamily::BigInt => ColumnTypeFamily::BigInt,
            ColumnTypeFamily::Float => ColumnTypeFamily::Float,
            ColumnTypeFamily::Decimal => ColumnTypeFamily::Decimal,
            ColumnTypeFamily::Boolean => ColumnTypeFamily::Boolean,
            ColumnTypeFamily::Str => ColumnTypeFamily::Str,
            ColumnTypeFamily::DateTime => ColumnTypeFamily::DateTime,
            ColumnTypeFamily::Binary => ColumnTypeFamily::Binary,
            ColumnTypeFamily::Json => ColumnTypeFamily::Json,
            ColumnTypeFamily::Uuid => ColumnTypeFamily::Uuid,
            ColumnTypeFamily::Enum(id) => ColumnTypeFamily::Enum(*id),
            ColumnTypeFamily::Unsupported(raw) => ColumnTypeFamily::Unsupported(raw.clone()),
        }
    }
}

/// Multiplicity of a source column.
#[derive(Clone, Copy, PartialEq, Eq, Structural, Debug)]
pub enum ColumnArity {
    Required,
    Nullable,
    List,
}

/// Kind of a source index.
#[derive(Clone, Copy, PartialEq, Eq, Structural, Debug)]
pub enum IndexType {
    Unique,
    Normal,
    Fulltext,
    PrimaryKey,
}

/// Referential `ON DELETE` action of a source foreign key.
#[derive(Clone, Copy, PartialEq, Eq, Structural, Debug)]
pub enum ForeignKeyAction {
    NoAction,
    Restrict,
    Cascade,
    SetNull,
    SetDefault,
}

/// A source column: its name, multiplicity, generic family, and the native
/// type when the source recorded one.
#[derive(Clone, PartialEq, Eq, Debug)]
pub struct SqlColumn {
    pub name: String,
    pub arity: ColumnArity,
    pub family: ColumnTypeFamily,
    pub native_type: Option<PostgresType>,
}

#[verifier::ext_equal]
pub struct SqlColumnView {
    pub name: Seq<char>,
    pub arity: ColumnArity,
    pub family: ColumnTypeFamilyView,
    pub native_type: Option<PostgresType>,
}

impl View for SqlColumn {
    type V = SqlColumnView;

    open spec fn view(&self) -> SqlColumnView {
        SqlColumnView {
            name: self.name@,
            arity: self.arity,
            family: self.family@,
            native_type: self.native_type,
        }
    }
}

/// A source index; `columns` lists the member column names in key order.
#[derive(Clone, PartialEq, Eq, Debug)]
pub struct SqlIndex {
    pub name: String,
    pub tpe: IndexType,
    pub columns: Vec<String>,
}

#[verifier::ext_equal]
pub struct SqlIndexView {
    pub name: Seq<char>,
    pub tpe: IndexType,
    pub columns: Seq<Seq<char>>,
}

impl View for SqlIndex {
    type V = SqlIndexView;

    open spec fn view(&self) -> SqlIndexView {
        SqlIndexView {
            name: self.name@,
            tpe: self.tpe,
            columns: self.columns@.map_values(|s: String| s@),
        }
    }
}

/// A source foreign key. The constraint name is optional here: a source
/// graph may lack it, and the projector treats that as a fatal
/// input-contract violation rather than inventing a name.
#[derive(Clone, PartialEq, Eq, Debug)]
pub struct SqlForeignKey {
    pub constraint_name: Option<String>,
    pub table_name: String,
    pub referenced_table_name: String,
    pub constrained_columns: Vec<String>,
    pub referenced_columns: Vec<String>,
    pub on_delete_action: ForeignKeyAction,
}

#[verifier::ext_equal]
pub struct SqlForeignKeyView {
    pub constraint_name: Option<Seq<char>>,
    pub table_name: Seq<char>,
    pub referenced_table_name: Seq<char>,
    pub constrained_columns: Seq<Seq<char>>,
    pub referenced_columns: Seq<Seq<char>>,
    pub on_delete_action: ForeignKeyAction,
}

impl View for SqlForeignKey {
    type V = SqlForeignKeyView;

    open spec fn view(&self) -> SqlForeignKeyView {
        SqlForeignKeyView {
            constraint_name: match &self.constraint_name {
                Some(n) => Some(n@),
                None => None,
            },
            table_name: self.table_name@,
            referenced_table_name: self.referenced_table_name@,
            constrained_columns: self.constrained_columns@.map_values(|s: String| s@),
            referenced_columns: self.referenced_columns@.map_values(|s: String| s@),
            on_delete_action: self.on_delete_action,
        }
    }
}

/// A source table: its columns and indexes in declared order.
#[derive(Clone, PartialEq, Eq, Debug)]
pub struct SqlTable {
    pub name: String,
    pub columns: Vec<SqlColumn>,
    pub indexes: Vec<SqlIndex>,
}

#[verifier::ext_equal]
pub struct SqlTableView {
    pub name: Seq<char>,
    pub columns: Seq<SqlColumnView>,
    pub indexes: Seq<SqlIndexView>,
}

impl View for SqlTable {
    type V = SqlTableView;

    open spec fn view(&self) -> SqlTableView {
        SqlTableView {
            name: self.name@,
            columns: self.columns@.map_values(|c: SqlColumn| c@),
            indexes: self.indexes@.map_values(|i: SqlIndex| i@),
        }
    }
}

/// The whole source schema graph handed over by the schema-calculation
/// collaborator: tables and foreign keys, in declaration order.
#[derive(Clone, PartialEq, Eq, Debug)]
pub struct SqlSchema {
    pub tables: Vec<SqlTable>,
    pub foreign_keys: Vec<SqlForeignKey>,
}

#[verifier::ext_equal]
pub struct SqlSchemaView {
    pub tables: Seq<SqlTableView>,
    pub foreign_keys: Seq<SqlForeignKeyView>,
}

impl View for SqlSchema {
    type V = SqlSchemaView;

    open spec fn view(&self) -> SqlSchemaView {
        SqlSchemaView {
            tables: self.tables@.map_values(|t: SqlTable| t@),
            foreign_keys: self.foreign_keys@.map_values(|f: SqlForeignKey| f@),
        }
    }
}

} // verus!
