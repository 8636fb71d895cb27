use entityframework_json_gen::codec::decode_schema;
use entityframework_json_gen::codec::decode_type;
use entityframework_json_gen::codec::encode_schema;
use entityframework_json_gen::codec::encode_type;
use entityframework_json_gen::codec::schema_to_json;
use entityframework_json_gen::json::render;
use entityframework_json_gen::json::JsonValue;
use entityframework_json_gen::model::DatabaseColumn;
use entityframework_json_gen::model::DatabaseColumnArity;
use entityframework_json_gen::model::DatabaseForeignKey;
use entityframework_json_gen::model::DatabaseForeignKeyAction;
use entityframework_json_gen::model::DatabaseIndex;
use entityframework_json_gen::model::DatabaseIndexType;
use entityframework_json_gen::model::DatabaseSchema;
use entityframework_json_gen::model::DatabaseTable;
use entityframework_json_gen::model::DatabaseType;

fn sample_schema() -> DatabaseSchema {
    DatabaseSchema {
        tables: vec![DatabaseTable {
            name: "users".to_string(),
            columns: vec![
                DatabaseColumn {
                    name: "id".to_string(),
                    arity: DatabaseColumnArity::Required,
                    tpe: DatabaseType::Int,
                },
                DatabaseColumn {
                    name: "email".to_string(),
                    arity: DatabaseColumnArity::Nullable,
                    tpe: DatabaseType::VarChar(Some(255)),
                },
                DatabaseColumn {
                    name: "role".to_string(),
                    arity: DatabaseColumnArity::Required,
                    tpe: DatabaseType::Enum(3),
                },
                DatabaseColumn {
                    name: "blob".to_string(),
                    arity: DatabaseColumnArity::List,
                    tpe: DatabaseType::Unsupported("macaddr8".to_string()),
                },
            ],
            indexes: vec![DatabaseIndex {
                name: "users_pkey".to_string(),
                tpe: DatabaseIndexType::PrimaryKey,
                columns: vec!["id".to_string()],
            }],
        }],
        foreign_keys: vec![DatabaseForeignKey {
            name: "fk_orders_users".to_string(),
            table_name: "orders".to_string(),
            referenced_table_name: "users".to_string(),
            column_names: vec!["x".to_string(), "y".to_string()],
            referenced_column_names: vec!["p".to_string(), "q".to_string()],
            on_delete_action: DatabaseForeignKeyAction::SetNull,
        }],
    }
}

#[test]
fn schema_round_trips_through_the_codec() {
    let schema = sample_schema();
    let doc = encode_schema(&schema);
    let back = decode_schema(&doc).unwrap();
    assert_eq!(back, schema);
}

#[test]
fn empty_schema_round_trips_and_renders() {
    let schema = DatabaseSchema { tables: vec![], foreign_keys: vec![] };
    let doc = encode_schema(&schema);
    assert_eq!(decode_schema(&doc).unwrap(), schema);
    assert_eq!(schema_to_json(&schema), "{\"tables\":[],\"foreign_keys\":[]}");
}

#[test]
fn type_tags_round_trip() {
    let types = vec![
        DatabaseType::SmallInt,
        DatabaseType::Int,
        DatabaseType::BigInt,
        DatabaseType::Float,
        DatabaseType::Decimal,
        DatabaseType::Boolean,
        DatabaseType::Binary,
        DatabaseType::Enum(42),
        DatabaseType::Unsupported("tsvector".to_string()),
        DatabaseType::Money,
        DatabaseType::Inet,
        DatabaseType::Oid,
        DatabaseType::Citext,
        DatabaseType::Double,
        DatabaseType::VarChar(Some(255)),
        DatabaseType::VarChar(None),
        DatabaseType::Char(Some(2)),
        DatabaseType::Text,
        DatabaseType::ByteA,
        DatabaseType::Timestamp(Some(3)),
        DatabaseType::Timestamptz(None),
        DatabaseType::Date,
        DatabaseType::Time(Some(0)),
        DatabaseType::Timetz(Some(6)),
        DatabaseType::Uuid,
        DatabaseType::Xml,
        DatabaseType::Json,
        DatabaseType::JsonB,
    ];
    for t in types {
        let doc = encode_type(&t);
        assert_eq!(decode_type(&doc).unwrap(), t);
    }
}

#[test]
fn tagged_type_renders_as_documented() {
    assert_eq!(render(&encode_type(&DatabaseType::SmallInt)), "{\"t\":\"small_int\"}");
    assert_eq!(
        render(&encode_type(&DatabaseType::VarChar(Some(255)))),
        "{\"t\":\"var_char\",\"c\":255}"
    );
    assert_eq!(render(&encode_type(&DatabaseType::VarChar(None))), "{\"t\":\"var_char\",\"c\":null}");
    assert_eq!(render(&encode_type(&DatabaseType::Enum(7))), "{\"t\":\"enum\",\"c\":7}");
    assert_eq!(
        render(&encode_type(&DatabaseType::Unsupported("macaddr8".to_string()))),
        "{\"t\":\"unsupported\",\"c\":\"macaddr8\"}"
    );
}

#[test]
fn serialization_is_byte_identical_across_runs() {
    let schema = sample_schema();
    assert_eq!(schema_to_json(&schema), schema_to_json(&sample_schema()));
}

#[test]
fn rendered_text_is_valid_json_with_the_expected_shape() {
    let schema = sample_schema();
    let text = schema_to_json(&schema);
    let parsed: serde_json::Value = serde_json::from_str(&text).unwrap();
    assert_eq!(parsed["tables"][0]["name"], serde_json::Value::String("users".to_string()));
    assert_eq!(
        parsed["tables"][0]["columns"][1]["tpe"]["t"],
        serde_json::Value::String("var_char".to_string())
    );
    assert_eq!(
        parsed["tables"][0]["columns"][1]["tpe"]["c"],
        serde_json::Value::Number(serde_json::Number::from(255u32))
    );
    assert_eq!(
        parsed["foreign_keys"][0]["on_delete_action"],
        serde_json::Value::String("set_null".to_string())
    );
    assert_eq!(
        parsed["foreign_keys"][0]["column_names"][1],
        serde_json::Value::String("y".to_string())
    );
}

#[test]
fn string_escaping_survives_a_json_parser() {
    let schema = DatabaseSchema {
        tables: vec![DatabaseTable {
            name: "we\"ird\\name".to_string(),
            columns: vec![],
            indexes: vec![],
        }],
        foreign_keys: vec![],
    };
    let text = schema_to_json(&schema);
    let parsed: serde_json::Value = serde_json::from_str(&text).unwrap();
    assert_eq!(
        parsed["tables"][0]["name"],
        serde_json::Value::String("we\"ird\\name".to_string())
    );
    let doc = encode_schema(&schema);
    assert_eq!(decode_schema(&doc).unwrap(), schema);
}

#[test]
fn decoding_rejects_foreign_shapes() {
    assert!(decode_schema(&JsonValue::Null).is_none());
    assert!(decode_schema(&JsonValue::Number(3)).is_none());
    assert!(decode_schema(&JsonValue::Object(vec![])).is_none());
    assert!(decode_type(&JsonValue::Str("small_int".to_string())).is_none());
    assert!(decode_type(&JsonValue::Object(vec![(
        "t".to_string(),
        JsonValue::Str("no_such_tag".to_string()),
    )]))
    .is_none());
}

#[test]
fn decoding_is_strict_about_field_order() {
    // The decoder accepts exactly the encoder's shape; swapped keys are
    // foreign, not reinterpreted.
    let swapped = JsonValue::Object(vec![
        ("foreign_keys".to_string(), JsonValue::Array(vec![])),
        ("tables".to_string(), JsonValue::Array(vec![])),
    ]);
    assert!(decode_schema(&swapped).is_none());
}

#[test]
fn zero_precision_is_kept_distinct_from_unspecified() {
    let with_zero = encode_type(&DatabaseType::Time(Some(0)));
    let without = encode_type(&DatabaseType::Time(None));
    assert_eq!(render(&with_zero), "{\"t\":\"time\",\"c\":0}");
    assert_eq!(render(&without), "{\"t\":\"time\",\"c\":null}");
    assert_eq!(decode_type(&with_zero).unwrap(), DatabaseType::Time(Some(0)));
    assert_eq!(decode_type(&without).unwrap(), DatabaseType::Time(None));
}

#[test]
fn number_rendering_is_plain_decimal() {
    assert_eq!(render(&JsonValue::Number(0)), "0");
    assert_eq!(render(&JsonValue::Number(10)), "10");
    assert_eq!(render(&JsonValue::Number(4294967295)), "4294967295");
}
