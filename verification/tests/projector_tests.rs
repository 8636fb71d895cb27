use entityframework_json_gen::model::DatabaseColumnArity;
use entityframework_json_gen::model::DatabaseForeignKeyAction;
use entityframework_json_gen::model::DatabaseIndexType;
use entityframework_json_gen::model::DatabaseType;
use entityframework_json_gen::project::create_database_schema;
use entityframework_json_gen::project::get_column_type;
use entityframework_json_gen::project::project_column;
use entityframework_json_gen::project::project_foreign_key;
use entityframework_json_gen::project::project_table;
use entityframework_json_gen::project::ProjectionError;
use entityframework_json_gen::source::ColumnArity;
use entityframework_json_gen::source::ColumnTypeFamily;
use entityframework_json_gen::source::ForeignKeyAction;
use entityframework_json_gen::source::IndexType;
use entityframework_json_gen::source::PostgresType;
use entityframework_json_gen::source::SqlColumn;
use entityframework_json_gen::source::SqlForeignKey;
use entityframework_json_gen::source::SqlIndex;
use entityframework_json_gen::source::SqlSchema;
use entityframework_json_gen::source::SqlTable;

fn column(name: &str, family: ColumnTypeFamily, native: Option<PostgresType>) -> SqlColumn {
    SqlColumn {
        name: name.to_string(),
        arity: ColumnArity::Required,
        family,
        native_type: native,
    }
}

#[test]
fn native_mapping_covers_every_tag() {
    let cases = vec![
        (PostgresType::SmallInt, DatabaseType::SmallInt),
        (PostgresType::Integer, DatabaseType::Int),
        (PostgresType::BigInt, DatabaseType::BigInt),
        (PostgresType::Decimal(Some((10, 2))), DatabaseType::Decimal),
        (PostgresType::Money, DatabaseType::Money),
        (PostgresType::Inet, DatabaseType::Inet),
        (PostgresType::Oid, DatabaseType::Oid),
        (PostgresType::Citext, DatabaseType::Citext),
        (PostgresType::Real, DatabaseType::Decimal),
        (PostgresType::DoublePrecision, DatabaseType::Double),
        (PostgresType::VarChar(Some(64)), DatabaseType::VarChar(Some(64))),
        (PostgresType::Char(Some(2)), DatabaseType::Char(Some(2))),
        (PostgresType::Text, DatabaseType::Text),
        (PostgresType::ByteA, DatabaseType::ByteA),
        (PostgresType::Timestamp(Some(3)), DatabaseType::Timestamp(Some(3))),
        (PostgresType::Timestamptz(Some(6)), DatabaseType::Timestamptz(Some(6))),
        (PostgresType::Date, DatabaseType::Date),
        (PostgresType::Time(None), DatabaseType::Time(None)),
        (PostgresType::Timetz(None), DatabaseType::Timetz(None)),
        (PostgresType::Boolean, DatabaseType::Boolean),
        (PostgresType::Bit(Some(8)), DatabaseType::Binary),
        (PostgresType::VarBit(Some(16)), DatabaseType::Binary),
        (PostgresType::Uuid, DatabaseType::Uuid),
        (PostgresType::Xml, DatabaseType::Xml),
        (PostgresType::Json, DatabaseType::Json),
        (PostgresType::JsonB, DatabaseType::JsonB),
    ];
    for (native, expected) in cases {
        let got = get_column_type(Some(&native), ColumnTypeFamily::Int);
        assert_eq!(got, expected);
        // A native type never falls back to the family's mapping artifacts.
        assert!(!matches!(got, DatabaseType::Enum(_)));
        assert!(!matches!(got, DatabaseType::Unsupported(_)));
    }
}

#[test]
fn family_fallback_covers_every_family() {
    let cases = vec![
        (ColumnTypeFamily::Int, DatabaseType::Int),
        (ColumnTypeFamily::BigInt, DatabaseType::BigInt),
        (ColumnTypeFamily::Float, DatabaseType::Float),
        (ColumnTypeFamily::Decimal, DatabaseType::Decimal),
        (ColumnTypeFamily::Boolean, DatabaseType::Boolean),
        (ColumnTypeFamily::Str, DatabaseType::Text),
        (ColumnTypeFamily::DateTime, DatabaseType::Timestamp(None)),
        (ColumnTypeFamily::Binary, DatabaseType::Binary),
        (ColumnTypeFamily::Json, DatabaseType::Json),
        (ColumnTypeFamily::Uuid, DatabaseType::Uuid),
        (ColumnTypeFamily::Enum(7), DatabaseType::Enum(7)),
        (
            ColumnTypeFamily::Unsupported("money2".to_string()),
            DatabaseType::Unsupported("money2".to_string()),
        ),
    ];
    for (family, expected) in cases {
        assert_eq!(get_column_type(None, family), expected);
    }
}

#[test]
fn native_type_wins_over_family() {
    let got = get_column_type(Some(&PostgresType::Uuid), ColumnTypeFamily::Boolean);
    assert_eq!(got, DatabaseType::Uuid);
}

#[test]
fn varchar_length_is_preserved() {
    assert_eq!(
        get_column_type(Some(&PostgresType::VarChar(Some(255))), ColumnTypeFamily::Str),
        DatabaseType::VarChar(Some(255))
    );
    assert_eq!(
        get_column_type(Some(&PostgresType::VarChar(None)), ColumnTypeFamily::Str),
        DatabaseType::VarChar(None)
    );
}

#[test]
fn bit_strings_collapse_to_binary() {
    assert_eq!(
        get_column_type(Some(&PostgresType::Bit(Some(1))), ColumnTypeFamily::Binary),
        DatabaseType::Binary
    );
    assert_eq!(
        get_column_type(Some(&PostgresType::VarBit(Some(32))), ColumnTypeFamily::Binary),
        DatabaseType::Binary
    );
    assert_eq!(
        get_column_type(Some(&PostgresType::Bit(None)), ColumnTypeFamily::Binary),
        DatabaseType::Binary
    );
}

#[test]
fn arity_is_copied_verbatim() {
    for (arity, expected) in vec![
        (ColumnArity::Required, DatabaseColumnArity::Required),
        (ColumnArity::Nullable, DatabaseColumnArity::Nullable),
        (ColumnArity::List, DatabaseColumnArity::List),
    ] {
        let c = SqlColumn {
            name: "c".to_string(),
            arity,
            family: ColumnTypeFamily::Int,
            native_type: None,
        };
        assert_eq!(project_column(&c).arity, expected);
    }
}

#[test]
fn column_and_index_order_is_preserved() {
    let t = SqlTable {
        name: "t".to_string(),
        columns: vec![
            column("b", ColumnTypeFamily::Int, None),
            column("a", ColumnTypeFamily::Int, None),
            column("c", ColumnTypeFamily::Int, None),
        ],
        indexes: vec![SqlIndex {
            name: "ix".to_string(),
            tpe: IndexType::Normal,
            columns: vec!["c".to_string(), "a".to_string()],
        }],
    };
    let p = project_table(&t);
    let names: Vec<&str> = p.columns.iter().map(|c| c.name.as_str()).collect();
    assert_eq!(names, vec!["b", "a", "c"]);
    assert_eq!(p.indexes.len(), 1);
    assert_eq!(p.indexes[0].columns, vec!["c".to_string(), "a".to_string()]);
    assert_eq!(p.indexes[0].tpe, DatabaseIndexType::Normal);
}

#[test]
fn index_kinds_translate_one_to_one() {
    for (tpe, expected) in vec![
        (IndexType::Unique, DatabaseIndexType::Unique),
        (IndexType::Normal, DatabaseIndexType::Normal),
        (IndexType::Fulltext, DatabaseIndexType::Fulltext),
        (IndexType::PrimaryKey, DatabaseIndexType::PrimaryKey),
    ] {
        let t = SqlTable {
            name: "t".to_string(),
            columns: vec![],
            indexes: vec![SqlIndex { name: "i".to_string(), tpe, columns: vec![] }],
        };
        assert_eq!(project_table(&t).indexes[0].tpe, expected);
    }
}

fn foreign_key(name: Option<&str>) -> SqlForeignKey {
    SqlForeignKey {
        constraint_name: name.map(|n| n.to_string()),
        table_name: "orders".to_string(),
        referenced_table_name: "users".to_string(),
        constrained_columns: vec!["x".to_string(), "y".to_string()],
        referenced_columns: vec!["p".to_string(), "q".to_string()],
        on_delete_action: ForeignKeyAction::Cascade,
    }
}

#[test]
fn foreign_key_pairing_is_preserved() {
    let fk = project_foreign_key(&foreign_key(Some("fk_orders_users"))).unwrap();
    assert_eq!(fk.name, "fk_orders_users");
    assert_eq!(fk.table_name, "orders");
    assert_eq!(fk.referenced_table_name, "users");
    assert_eq!(fk.column_names, vec!["x".to_string(), "y".to_string()]);
    assert_eq!(fk.referenced_column_names, vec!["p".to_string(), "q".to_string()]);
    assert_eq!(fk.on_delete_action, DatabaseForeignKeyAction::Cascade);
}

#[test]
fn delete_actions_translate_one_to_one() {
    for (action, expected) in vec![
        (ForeignKeyAction::NoAction, DatabaseForeignKeyAction::NoAction),
        (ForeignKeyAction::Restrict, DatabaseForeignKeyAction::Restrict),
        (ForeignKeyAction::Cascade, DatabaseForeignKeyAction::Cascade),
        (ForeignKeyAction::SetNull, DatabaseForeignKeyAction::SetNull),
        (ForeignKeyAction::SetDefault, DatabaseForeignKeyAction::SetDefault),
    ] {
        let mut fk = foreign_key(Some("fk"));
        fk.on_delete_action = action;
        assert_eq!(project_foreign_key(&fk).unwrap().on_delete_action, expected);
    }
}

#[test]
fn missing_constraint_name_is_fatal() {
    let schema = SqlSchema { tables: vec![], foreign_keys: vec![foreign_key(None)] };
    let err = create_database_schema(&schema, true).unwrap_err();
    assert_eq!(err, ProjectionError::MissingForeignKeyName("orders".to_string()));
}

#[test]
fn foreign_keys_can_be_left_out() {
    let schema = SqlSchema { tables: vec![], foreign_keys: vec![foreign_key(None)] };
    let projected = create_database_schema(&schema, false).unwrap();
    assert!(projected.foreign_keys.is_empty());
}

#[test]
fn whole_schema_projection() {
    let schema = SqlSchema {
        tables: vec![SqlTable {
            name: "users".to_string(),
            columns: vec![
                column("id", ColumnTypeFamily::Int, Some(PostgresType::Integer)),
                column("email", ColumnTypeFamily::Str, Some(PostgresType::VarChar(Some(255)))),
            ],
            indexes: vec![SqlIndex {
                name: "users_pkey".to_string(),
                tpe: IndexType::PrimaryKey,
                columns: vec!["id".to_string()],
            }],
        }],
        foreign_keys: vec![foreign_key(Some("fk_orders_users"))],
    };
    let projected = create_database_schema(&schema, true).unwrap();
    assert_eq!(projected.tables.len(), 1);
    assert_eq!(projected.tables[0].name, "users");
    assert_eq!(projected.tables[0].columns[1].tpe, DatabaseType::VarChar(Some(255)));
    assert_eq!(projected.foreign_keys.len(), 1);
}

#[test]
fn projection_is_deterministic() {
    let schema = SqlSchema {
        tables: vec![SqlTable {
            name: "t".to_string(),
            columns: vec![column("a", ColumnTypeFamily::Enum(3), None)],
            indexes: vec![],
        }],
        foreign_keys: vec![foreign_key(Some("fk"))],
    };
    let one = create_database_schema(&schema, true).unwrap();
    let two = create_database_schema(&schema, true).unwrap();
    assert_eq!(one, two);
}
