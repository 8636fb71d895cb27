//! The schema projector: a total, deterministic mapping from the source
//! schema graph onto the canonical model.
//!
//! Per-column type resolution is native-type-first: a column that carries a
//! native type is resolved through a fixed, exhaustive table over the whole
//! dialect; only a column with no native type falls back to the generic
//! family table, which always succeeds. Tables, indexes and foreign keys are
//! projected in their source order, and every column list keeps its order.
//! A foreign key without a constraint name is a fatal input-contract
//! violation: projection of the whole schema fails rather than inventing a
//! name, and no partial result is produced.

use vstd::prelude::*;

use crate::model::DatabaseColumn;
use crate::model::DatabaseColumnArity;
use crate::model::DatabaseColumnView;
use crate::model::DatabaseForeignKey;
use crate::model::DatabaseForeignKeyAction;
use crate::model::DatabaseForeignKeyView;
use crate::model::DatabaseIndex;
use crate::model::DatabaseIndexType;
use crate::model::DatabaseIndexView;
use crate::model::DatabaseSchema;
use crate::model::DatabaseSchemaView;
use crate::model::DatabaseTable;
use crate::model::DatabaseTableView;
use crate::model::DatabaseType;
use crate::model::DatabaseTypeView;
use crate::source::ColumnArity;
use crate::source::ColumnTypeFamily;
use crate::source::ColumnTypeFamilyView;
use crate::source::ForeignKeyAction;
use crate::source::IndexType;
use crate::source::PostgresType;
use crate::source::SqlColumn;
use crate::source::SqlColumnView;
use crate::source::SqlForeignKey;
use crate::source::SqlForeignKeyView;
use crate::source::SqlIndex;
use crate::source::SqlIndexView;
use crate::source::SqlSchema;
use crate::source::SqlSchemaView;
use crate::source::SqlTable;
use crate::source::SqlTableView;

verus! {

/// Why a projection failed.
#[derive(Clone, PartialEq, Eq, Debug)]
pub enum ProjectionError {
    /// A foreign key carried no constraint name. The payload is the name of
    /// the table that owns the offending foreign key.
    MissingForeignKeyName(String),
}

pub enum ProjectionErrorView {
    MissingForeignKeyName(Seq<char>),
}

impl View for ProjectionError {
    type V = ProjectionErrorView;

    open spec fn view(&self) -> ProjectionErrorView {
        match self {
            ProjectionError::MissingForeignKeyName(t) => {
                ProjectionErrorView::MissingForeignKeyName(t@)
            },
        }
    }
}

/// The fixed native-type table: one canonical tag for every tag of the
/// dialect. `Real` intentionally maps to `Decimal`, and both bit-string
/// types collapse to `Binary`, discarding their width: deliberate, lossy
/// simplifications of this table.
pub open spec fn native_type_mapping(t: PostgresType) -> DatabaseTypeView {
    match t {
        PostgresType::SmallInt => DatabaseTypeView::SmallInt,
        PostgresType::Integer => DatabaseTypeView::Int,
        PostgresType::BigInt => DatabaseTypeView::BigInt,
        PostgresType::Decimal(_) => DatabaseTypeView::Decimal,
        PostgresType::Money => DatabaseTypeView::Money,
        PostgresType::Inet => DatabaseTypeView::Inet,
        PostgresType::Oid => DatabaseTypeView::Oid,
        PostgresType::Citext => DatabaseTypeView::Citext,
        PostgresType::Real => DatabaseTypeView::Decimal,
        PostgresType::DoublePrecision => DatabaseTypeView::Double,
        PostgresType::VarChar(len) => DatabaseTypeView::VarChar(len),
        PostgresType::Char(len) => DatabaseTypeView::Char(len),
        PostgresType::Text => DatabaseTypeView::Text,
        PostgresType::ByteA => DatabaseTypeView::ByteA,
        PostgresType::Timestamp(p) => DatabaseTypeView::Timestamp(p),
        PostgresType::Timestamptz(p) => DatabaseTypeView::Timestamptz(p),
        PostgresType::Date => DatabaseTypeView::Date,
        PostgresType::Time(p) => DatabaseTypeView::Time(p),
        PostgresType::Timetz(p) => DatabaseTypeView::Timetz(p),
        PostgresType::Boolean => DatabaseTypeView::Boolean,
        PostgresType::Bit(_) => DatabaseTypeView::Binary,
        PostgresType::VarBit(_) => DatabaseTypeView::Binary,
        PostgresType::Uuid => DatabaseTypeView::Uuid,
        PostgresType::Xml => DatabaseTypeView::Xml,
        PostgresType::Json => DatabaseTypeView::Json,
        PostgresType::JsonB => DatabaseTypeView::JsonB,
    }
}

/// The generic-family fallback table. It always succeeds; a date/time
/// family with no precision resolves to `Timestamp` with no precision.
pub open spec fn family_mapping(f: ColumnTypeFamilyView) -> DatabaseTypeView {
    match f {
        ColumnTypeFamilyView::Int => DatabaseTypeView::Int,
        ColumnTypeFamilyView::BigInt => DatabaseTypeView::BigInt,
        ColumnTypeFamilyView::Float => DatabaseTypeView::Float,
        ColumnTypeFamilyView::Decimal => DatabaseTypeView::Decimal,
        ColumnTypeFamilyView::Boolean => DatabaseTypeView::Boolean,
        ColumnTypeFamilyView::Str => DatabaseTypeView::Text,
        ColumnTypeFamilyView::DateTime => DatabaseTypeView::Timestamp(None),
        ColumnTypeFamilyView::Binary => DatabaseTypeView::Binary,
        ColumnTypeFamilyView::Json => DatabaseTypeView::Json,
        ColumnTypeFamilyView::Uuid => DatabaseTypeView::Uuid,
        ColumnTypeFamilyView::Enum(id) => DatabaseTypeView::Enum(id),
        ColumnTypeFamilyView::Unsupported(raw) => DatabaseTypeView::Unsupported(raw),
    }
}

/// Per-column resolution: the native type wins where present; otherwise the
/// generic family decides.
pub open spec fn column_type_mapping(
    native: Option<PostgresType>,
    family: ColumnTypeFamilyView,
) -> DatabaseTypeView {
    match native {
        Some(t) => native_type_mapping(t),
        None => family_mapping(family),
    }
}

pub open spec fn arity_mapping(a: ColumnArity) -> DatabaseColumnArity {
    match a {
        ColumnArity::Required => DatabaseColumnArity::Required,
        ColumnArity::Nullable => DatabaseColumnArity::Nullable,
        ColumnArity::List => DatabaseColumnArity::List,
    }
}

pub open spec fn index_type_mapping(t: IndexType) -> DatabaseIndexType {
    match t {
        IndexType::Unique => DatabaseIndexType::Unique,
        IndexType::Normal => DatabaseIndexType::Normal,
        IndexType::Fulltext => DatabaseIndexType::Fulltext,
        IndexType::PrimaryKey => DatabaseIndexType::PrimaryKey,
    }
}

pub open spec fn action_mapping(a: ForeignKeyAction) -> DatabaseForeignKeyAction {
    match a {
        ForeignKeyAction::NoAction => DatabaseForeignKeyAction::NoAction,
        ForeignKeyAction::Restrict => DatabaseForeignKeyAction::Restrict,
        ForeignKeyAction::Cascade => DatabaseForeignKeyAction::Cascade,
        ForeignKeyAction::SetNull => DatabaseForeignKeyAction::SetNull,
        ForeignKeyAction::SetDefault => DatabaseForeignKeyAction::SetDefault,
    }
}

pub open spec fn project_column_spec(c: SqlColumnView) -> DatabaseColumnView {
    DatabaseColumnView {
        name: c.name,
        arity: arity_mapping(c.arity),
        tpe: column_type_mapping(c.native_type, c.family),
    }
}

pub open spec fn project_index_spec(ix: SqlIndexView) -> DatabaseIndexView {
    DatabaseIndexView {
        name: ix.name,
        tpe: index_type_mapping(ix.tpe),
        columns: ix.columns,
    }
}

/// Whether a foreign key satisfies the input contract of carrying a name.
pub open spec fn fk_named(fk: SqlForeignKeyView) -> bool {
    fk.constraint_name is Some
}

pub open spec fn all_fks_named(fks: Seq<SqlForeignKeyView>) -> bool {
    forall|i: int| 0 <= i < fks.len() ==> fk_named(#[trigger] fks[i])
}

/// Index of the first foreign key without a name (meaningful when not all
/// are named).
pub open spec fn first_unnamed(fks: Seq<SqlForeignKeyView>) -> int
    decreases fks.len(),
{
    if fks.len() == 0 {
        0
    } else if !fk_named(fks[0]) {
        0
    } else {
        1 + first_unnamed(fks.drop_first())
    }
}

/// Projection of a named foreign key: every name list is copied verbatim,
/// in order, and the delete action is translated one-to-one.
pub open spec fn project_fk_spec(fk: SqlForeignKeyView) -> DatabaseForeignKeyView
    recommends
        fk_named(fk),
{
    DatabaseForeignKeyView {
        name: fk.constraint_name->0,
        table_name: fk.table_name,
        referenced_table_name: fk.referenced_table_name,
        column_names: fk.constrained_columns,
        referenced_column_names: fk.referenced_columns,
        on_delete_action: action_mapping(fk.on_delete_action),
    }
}

pub open spec fn project_table_spec(t: SqlTableView) -> DatabaseTableView {
    DatabaseTableView {
        name: t.name,
        columns: t.columns.map_values(|c: SqlColumnView| project_column_spec(c)),
        indexes: t.indexes.map_values(|ix: SqlIndexView| project_index_spec(ix)),
    }
}

/// Whole-schema projection. Foreign keys are included only when the caller
/// asks for them; that is an output-shape choice, not a default this layer
/// guesses.
pub open spec fn project_schema_spec(s: SqlSchemaView, with_foreign_keys: bool) -> DatabaseSchemaView
    recommends
        with_foreign_keys ==> all_fks_named(s.foreign_keys),
{
    DatabaseSchemaView {
        tables: s.tables.map_values(|t: SqlTableView| project_table_spec(t)),
        foreign_keys: if with_foreign_keys {
            s.foreign_keys.map_values(|fk: SqlForeignKeyView| project_fk_spec(fk))
        } else {
            Seq::empty()
        },
    }
}

pub open spec fn native_of(o: Option<&PostgresType>) -> Option<PostgresType> {
    match o {
        Some(t) => Some(*t),
        None => None,
    }
}

/// Resolves one column type: the native type through the fixed dialect
/// table where present, else the generic family through the fallback table.
pub fn get_column_type(
    postgres_type: Option<&PostgresType>,
    sql_type: ColumnTypeFamily,
) -> (t: DatabaseType)
    ensures
        t@ == column_type_mapping(native_of(postgres_type), sql_type@),
{
    if let Some(pg) = postgres_type {
        match pg {
            PostgresType::SmallInt => DatabaseType::SmallInt,
            PostgresType::Integer => DatabaseType::Int,
            PostgresType::BigInt => DatabaseType::BigInt,
            PostgresType::Decimal(_) => DatabaseType::Decimal,
            PostgresType::Money => DatabaseType::Money,
            PostgresType::Inet => DatabaseType::Inet,
            PostgresType::Oid => DatabaseType::Oid,
            PostgresType::Citext => DatabaseType::Citext,
            PostgresType::Real => DatabaseType::Decimal,
            PostgresType::DoublePrecision => DatabaseType::Double,
            PostgresType::VarChar(len) => DatabaseType::VarChar(*len),
            PostgresType::Char(len) => DatabaseType::Char(*len),
            PostgresType::Text => DatabaseType::Text,
            PostgresType::ByteA => DatabaseType::ByteA,
            PostgresType::Timestamp(p) => DatabaseType::Timestamp(*p),
            PostgresType::Timestamptz(p) => DatabaseType::Timestamptz(*p),
            PostgresType::Date => DatabaseType::Date,
            PostgresType::Time(p) => DatabaseType::Time(*p),
            PostgresType::Timetz(p) => DatabaseType::Timetz(*p),
            PostgresType::Boolean => DatabaseType::Boolean,
            PostgresType::Bit(_) => DatabaseType::Binary,
            PostgresType::VarBit(_) => DatabaseType::Binary,
            PostgresType::Uuid => DatabaseType::Uuid,
            PostgresType::Xml => DatabaseType::Xml,
            PostgresType::Json => DatabaseType::Json,
            PostgresType::JsonB => DatabaseType::JsonB,
        }
    } else {
        match sql_type {
            ColumnTypeFamily::Int => DatabaseType::Int,
            ColumnTypeFamily::BigInt => DatabaseType::BigInt,
            ColumnTypeFamily::Float => DatabaseType::Float,
            ColumnTypeFamily::Decimal => DatabaseType::Decimal,
            ColumnTypeFamily::Boolean => DatabaseType::Boolean,
            ColumnTypeFamily::Str => DatabaseType::Text,
            ColumnTypeFamily::DateTime => DatabaseType::Timestamp(None),
            ColumnTypeFamily::Binary => DatabaseType::Binary,
            ColumnTypeFamily::Json => DatabaseType::Json,
            ColumnTypeFamily::Uuid => DatabaseType::Uuid,
            ColumnTypeFamily::Enum(id) => DatabaseType::Enum(id),
            ColumnTypeFamily::Unsupported(raw) => DatabaseType::Unsupported(raw),
        }
    }
}

/// Copies a list of names, keeping every element and its order.
fn clone_string_vec(v: &Vec<String>) -> (r: Vec<String>)
    ensures
        r@.map_values(|s: String| s@) == v@.map_values(|s: String| s@),
{
    let mut r: Vec<String> = Vec::new();
    let mut i: usize = 0;
    while i < v.len()
        invariant
            i <= v.len(),
            r@.len() == i,
            forall|j: int| 0 <= j < i ==> r@[j]@ == v@[j]@,
        decreases v.len() - i,
    {
        r.push(v[i].clone());
        i += 1;
    }
    proof {
        assert(r@.map_values(|s: String| s@) =~= v@.map_values(|s: String| s@));
    }
    r
}

/// Projects one column: name and arity copied verbatim, type resolved
/// native-type-first.
pub fn project_column(c: &SqlColumn) -> (r: DatabaseColumn)
    ensures
        r@ == project_column_spec(c@),
{
    DatabaseColumn {
        name: c.name.clone(),
        arity: match c.arity {
            ColumnArity::Required => DatabaseColumnArity::Required,
            ColumnArity::Nullable => DatabaseColumnArity::Nullable,
            ColumnArity::List => DatabaseColumnArity::List,
        },
        tpe: get_column_type(c.native_type.as_ref(), c.family.duplicate()),
    }
}

/// Projects one index, keeping its member columns in key order.
pub fn project_index(ix: &SqlIndex) -> (r: DatabaseIndex)
    ensures
        r@ == project_index_spec(ix@),
{
    let r = DatabaseIndex {
        name: ix.name.clone(),
        tpe: match ix.tpe {
            IndexType::Unique => DatabaseIndexType::Unique,
            IndexType::Normal => DatabaseIndexType::Normal,
            IndexType::Fulltext => DatabaseIndexType::Fulltext,
            IndexType::PrimaryKey => DatabaseIndexType::PrimaryKey,
        },
        columns: clone_string_vec(&ix.columns),
    };
    r
}

/// Projects one foreign key. Fails, without inventing a name, when the
/// source records no constraint name.
pub fn project_foreign_key(fk: &SqlForeignKey) -> (r: Result<DatabaseForeignKey, ProjectionError>)
    ensures
        r is Ok <==> fk_named(fk@),
        r is Ok ==> r->Ok_0@ == project_fk_spec(fk@),
        r is Err ==> r->Err_0@ == ProjectionErrorView::MissingForeignKeyName(fk@.table_name),
{
    match &fk.constraint_name {
        Some(n) => Ok(
            DatabaseForeignKey {
                name: n.clone(),
                table_name: fk.table_name.clone(),
                referenced_table_name: fk.referenced_table_name.clone(),
                column_names: clone_string_vec(&fk.constrained_columns),
                referenced_column_names: clone_string_vec(&fk.referenced_columns),
                on_delete_action: match fk.on_delete_action {
                    ForeignKeyAction::NoAction => DatabaseForeignKeyAction::NoAction,
                    ForeignKeyAction::Restrict => DatabaseForeignKeyAction::Restrict,
                    ForeignKeyAction::Cascade => DatabaseForeignKeyAction::Cascade,
                    ForeignKeyAction::SetNull => DatabaseForeignKeyAction::SetNull,
                    ForeignKeyAction::SetDefault => DatabaseForeignKeyAction::SetDefault,
                },
            },
        ),
        None => Err(ProjectionError::MissingForeignKeyName(fk.table_name.clone())),
    }
}

/// Projects one table, keeping the declared order of columns and indexes.
pub fn project_table(t: &SqlTable) -> (r: DatabaseTable)
    ensures
        r@ == project_table_spec(t@),
{
    let mut columns: Vec<DatabaseColumn> = Vec::new();
    let mut i: usize = 0;
    while i < t.columns.len()
        invariant
            i <= t.columns.len(),
            columns@.len() == i,
            forall|j: int| 0 <= j < i ==> columns@[j]@ == project_column_spec(t@.columns[j]),
        decreases t.columns.len() - i,
    {
        proof {
            assert(t@.columns[i as int] == t.columns@[i as int]@);
        }
        columns.push(project_column(&t.columns[i]));
        i += 1;
    }
    let mut indexes: Vec<DatabaseIndex> = Vec::new();
    let mut k: usize = 0;
    while k < t.indexes.len()
        invariant
            k <= t.indexes.len(),
            indexes@.len() == k,
            forall|j: int| 0 <= j < k ==> indexes@[j]@ == project_index_spec(t@.indexes[j]),
        decreases t.indexes.len() - k,
    {
        proof {
            assert(t@.indexes[k as int] == t.indexes@[k as int]@);
        }
        indexes.push(project_index(&t.indexes[k]));
        k += 1;
    }
    let r = DatabaseTable { name: t.name.clone(), columns, indexes };
    proof {
        assert(r@.columns =~= project_table_spec(t@).columns);
        assert(r@.indexes =~= project_table_spec(t@).indexes);
    }
    r
}

proof fn lemma_first_unnamed_at(fks: Seq<SqlForeignKeyView>, i: int)
    requires
        0 <= i < fks.len(),
        !fk_named(fks[i]),
        forall|j: int| 0 <= j < i ==> fk_named(#[trigger] fks[j]),
    ensures
        first_unnamed(fks) == i,
    decreases i,
{
    if i > 0 {
        lemma_first_unnamed_at(fks.drop_first(), i - 1);
    }
}

/// Projects a whole schema in one pass: all tables, then — when asked for —
/// all foreign keys. All-or-nothing: the first foreign key without a
/// constraint name fails the projection, and its owning table is named in
/// the error.
pub fn create_database_schema(
    schema: &SqlSchema,
    include_foreign_keys: bool,
) -> (r: Result<DatabaseSchema, ProjectionError>)
    ensures
        r is Ok <==> (include_foreign_keys ==> all_fks_named(schema@.foreign_keys)),
        r is Ok ==> r->Ok_0@ == project_schema_spec(schema@, include_foreign_keys),
        r is Err ==> {
            &&& include_foreign_keys
            &&& !all_fks_named(schema@.foreign_keys)
            &&& r->Err_0@ == ProjectionErrorView::MissingForeignKeyName(
                schema@.foreign_keys[first_unnamed(schema@.foreign_keys)].table_name,
            )
        },
{
    let mut tables: Vec<DatabaseTable> = Vec::new();
    let mut i: usize = 0;
    while i < schema.tables.len()
        invariant
            i <= schema.tables.len(),
            tables@.len() == i,
            forall|j: int| 0 <= j < i ==> tables@[j]@ == project_table_spec(schema@.tables[j]),
        decreases schema.tables.len() - i,
    {
        proof {
            assert(schema@.tables[i as int] == schema.tables@[i as int]@);
        }
        tables.push(project_table(&schema.tables[i]));
        i += 1;
    }
    let mut foreign_keys: Vec<DatabaseForeignKey> = Vec::new();
    if include_foreign_keys {
        let mut k: usize = 0;
        while k < schema.foreign_keys.len()
            invariant
                include_foreign_keys,
                k <= schema.foreign_keys.len(),
                foreign_keys@.len() == k,
                forall|j: int| 0 <= j < k ==> fk_named(#[trigger] schema@.foreign_keys[j]),
                forall|j: int| 0 <= j < k
                    ==> foreign_keys@[j]@ == project_fk_spec(schema@.foreign_keys[j]),
            decreases schema.foreign_keys.len() - k,
        {
            proof {
                assert(schema@.foreign_keys[k as int] == schema.foreign_keys@[k as int]@);
            }
            match project_foreign_key(&schema.foreign_keys[k]) {
                Ok(fk) => foreign_keys.push(fk),
                Err(e) => {
                    proof {
                        assert(!fk_named(schema@.foreign_keys[k as int]));
                        assert(!all_fks_named(schema@.foreign_keys));
                        lemma_first_unnamed_at(schema@.foreign_keys, k as int);
                    }
                    return Err(e);
                },
            }
            k += 1;
        }
    }
    let r = DatabaseSchema { tables, foreign_keys };
    proof {
        assert(r@.tables =~= project_schema_spec(schema@, include_foreign_keys).tables);
        assert(r@.foreign_keys =~= project_schema_spec(
            schema@,
            include_foreign_keys,
        ).foreign_keys);
    }
    Ok(r)
}

/// Totality of the native mapping: every tag of the dialect yields a
/// concrete canonical tag of its own; none falls through to `Unsupported`
/// (the table has no gap) and none to `Enum` (which only the family
/// fallback produces).
pub proof fn lemma_native_mapping_total()
    ensures
        forall|t: PostgresType| !((#[trigger] native_type_mapping(t)) is Unsupported),
        forall|t: PostgresType| !((#[trigger] native_type_mapping(t)) is Enum),
{
}

/// Fallback coverage: a column with no native type resolves by the family
/// table alone, independent of the native-type table.
pub proof fn lemma_family_fallback(family: ColumnTypeFamilyView)
    ensures
        column_type_mapping(None, family) == family_mapping(family),
{
}

/// The deliberate lossy collapse: both bit-string native types, fixed-width
/// and variable-width, project to `Binary`, whatever their width.
pub proof fn lemma_bit_strings_collapse(width: Option<u32>)
    ensures
        native_type_mapping(PostgresType::Bit(width)) == DatabaseTypeView::Binary,
        native_type_mapping(PostgresType::VarBit(width)) == DatabaseTypeView::Binary,
{
}

/// Order preservation: a projected table has exactly the source's columns
/// and indexes, in source order, under their source names; each projected
/// index keeps its member columns in key order.
pub proof fn lemma_order_preserved(t: SqlTableView)
    ensures
        project_table_spec(t).columns.len() == t.columns.len(),
        forall|i: int| 0 <= i < t.columns.len()
            ==> (#[trigger] project_table_spec(t).columns[i]).name == t.columns[i].name,
        project_table_spec(t).indexes.len() == t.indexes.len(),
        forall|i: int| 0 <= i < t.indexes.len()
            ==> (#[trigger] project_table_spec(t).indexes[i]).name == t.indexes[i].name
                && project_table_spec(t).indexes[i].columns == t.indexes[i].columns,
{
}

/// Foreign key pairing: the constrained and referenced column name lists
/// are copied verbatim, so the pairwise correspondence by position is
/// preserved.
pub proof fn lemma_foreign_key_pairing(fk: SqlForeignKeyView)
    ensures
        project_fk_spec(fk).column_names == fk.constrained_columns,
        project_fk_spec(fk).referenced_column_names == fk.referenced_columns,
{
}

/// Determinism of projection: the projector is a function of the schema
/// graph alone, so equal graphs project to equal canonical schemas.
pub proof fn lemma_projection_deterministic(a: SqlSchemaView, b: SqlSchemaView, with_fks: bool)
    requires
        a == b,
    ensures
        project_schema_spec(a, with_fks) == project_schema_spec(b, with_fks),
{
}

} // verus!
