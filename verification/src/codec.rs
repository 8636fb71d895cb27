//! The tagged codec: the canonical schema encoded as a JSON document and
//! decoded back.
//!
//! The type union is encoded with an explicit tag field `"t"` plus an
//! optional content field `"c"` — never as an untagged union — so a decoder
//! recovers the exact variant without inference. Record fields and tag
//! names are the compatibility surface of the output. Decoding is strict:
//! it accepts exactly the shapes the encoder produces, and the decoder of
//! an encoded value always succeeds and returns the value it was given.

use vstd::prelude::*;

use crate::json::jv_fields_view;
use crate::json::jv_seq_view;
use crate::json::jv_view;
use crate::json::json_text;
use crate::json::lemma_jv_fields_view_index;
use crate::json::lemma_jv_fields_view_len;
use crate::json::lemma_jv_fields_view_push;
use crate::json::lemma_jv_seq_view_index;
use crate::json::lemma_jv_seq_view_len;
use crate::json::lemma_jv_seq_view_push;
use crate::json::JsonValue;
use crate::json::JsonValueView;
use crate::model::DatabaseColumn;
use crate::model::DatabaseColumnArity;
use crate::model::DatabaseColumnView;
use crate::model::DatabaseForeignKey;
use crate::model::DatabaseForeignKeyAction;
use crate::model::DatabaseForeignKeyView;
use crate::model::DatabaseIndex;
use crate::model::DatabaseIndexType;
use crate::model::DatabaseIndexView;
use crate::model::DatabaseSchema;
use crate::model::DatabaseSchemaView;
use crate::model::DatabaseTable;
use crate::model::DatabaseTableView;
use crate::model::DatabaseType;
use crate::model::DatabaseTypeView;

verus! {

// ---------------------------------------------------------------------------
// Spec-level encoding
// ---------------------------------------------------------------------------
/// An object holding only the tag field.
pub open spec fn tag_only(tag: Seq<char>) -> JsonValueView {
    JsonValueView::Object(seq![("t"@, JsonValueView::Str(tag))])
}

/// An object holding the tag field and a content field.
pub open spec fn tag_content(tag: Seq<char>, c: JsonValueView) -> JsonValueView {
    JsonValueView::Object(seq![("t"@, JsonValueView::Str(tag)), ("c"@, c)])
}

/// An optional numeric parameter: the number itself, or `null` for
/// "unspecified by the source".
pub open spec fn opt_num(p: Option<u32>) -> JsonValueView {
    match p {
        Some(n) => JsonValueView::Number(n),
        None => JsonValueView::Null,
    }
}

pub open spec fn encode_type_spec(t: DatabaseTypeView) -> JsonValueView {
    match t {
        DatabaseTypeView::SmallInt => tag_only("small_int"@),
        DatabaseTypeView::Int => tag_only("int"@),
        DatabaseTypeView::BigInt => tag_only("big_int"@),
        DatabaseTypeView::Float => tag_only("float"@),
        DatabaseTypeView::Decimal => tag_only("decimal"@),
        DatabaseTypeView::Boolean => tag_only("boolean"@),
        DatabaseTypeView::Binary => tag_only("binary"@),
        DatabaseTypeView::Enum(id) => tag_content("enum"@, JsonValueView::Number(id)),
        DatabaseTypeView::Unsupported(raw) => tag_content("unsupported"@, JsonValueView::Str(raw)),
        DatabaseTypeView::Money => tag_only("money"@),
        DatabaseTypeView::Inet => tag_only("inet"@),
        DatabaseTypeView::Oid => tag_only("oid"@),
        DatabaseTypeView::Citext => tag_only("citext"@),
        DatabaseTypeView::Double => tag_only("double"@),
        DatabaseTypeView::VarChar(l) => tag_content("var_char"@, opt_num(l)),
        DatabaseTypeView::Char(l) => tag_content("char"@, opt_num(l)),
        DatabaseTypeView::Text => tag_only("text"@),
        DatabaseTypeView::ByteA => tag_only("byte_a"@),
        DatabaseTypeView::Timestamp(p) => tag_content("timestamp"@, opt_num(p)),
        DatabaseTypeView::Timestamptz(p) => tag_content("timestamptz"@, opt_num(p)),
        DatabaseTypeView::Date => tag_only("date"@),
        DatabaseTypeView::Time(p) => tag_content("time"@, opt_num(p)),
        DatabaseTypeView::Timetz(p) => tag_content("timetz"@, opt_num(p)),
        DatabaseTypeView::Uuid => tag_only("uuid"@),
        DatabaseTypeView::Xml => tag_only("xml"@),
        DatabaseTypeView::Json => tag_only("json"@),
        DatabaseTypeView::JsonB => tag_only("json_b"@),
    }
}

pub open spec fn encode_arity_spec(a: DatabaseColumnArity) -> JsonValueView {
    match a {
        DatabaseColumnArity::Required => JsonValueView::Str("required"@),
        DatabaseColumnArity::Nullable => JsonValueView::Str("nullable"@),
        DatabaseColumnArity::List => JsonValueView::Str("list"@),
    }
}

pub open spec fn encode_index_type_spec(t: DatabaseIndexType) -> JsonValueView {
    match t {
        DatabaseIndexType::Unique => JsonValueView::Str("unique"@),
        DatabaseIndexType::Normal => JsonValueView::Str("normal"@),
        DatabaseIndexType::Fulltext => JsonValueView::Str("fulltext"@),
        DatabaseIndexType::PrimaryKey => JsonValueView::Str("primary_key"@),
    }
}

pub open spec fn encode_action_spec(a: DatabaseForeignKeyAction) -> JsonValueView {
    match a {
        DatabaseForeignKeyAction::NoAction => JsonValueView::Str("no_action"@),
        DatabaseForeignKeyAction::Restrict => JsonValueView::Str("restrict"@),
        DatabaseForeignKeyAction::Cascade => JsonValueView::Str("cascade"@),
        DatabaseForeignKeyAction::SetNull => JsonValueView::Str("set_null"@),
        DatabaseForeignKeyAction::SetDefault => JsonValueView::Str("set_default"@),
    }
}

pub open spec fn encode_strings_spec(ss: Seq<Seq<char>>) -> Seq<JsonValueView>
    decreases ss.len(),
{
    if ss.len() == 0 {
        Seq::empty()
    } else {
        encode_strings_spec(ss.drop_last()).push(JsonValueView::Str(ss.last()))
    }
}

pub open spec fn encode_column_spec(c: DatabaseColumnView) -> JsonValueView {
    JsonValueView::Object(
        seq![
            ("name"@, JsonValueView::Str(c.name)),
            ("arity"@, encode_arity_spec(c.arity)),
            ("tpe"@, encode_type_spec(c.tpe)),
        ],
    )
}

pub open spec fn encode_columns_spec(cs: Seq<DatabaseColumnView>) -> Seq<JsonValueView>
    decreases cs.len(),
{
    if cs.len() == 0 {
        Seq::empty()
    } else {
        encode_columns_spec(cs.drop_last()).push(encode_column_spec(cs.last()))
    }
}

pub open spec fn encode_index_spec(ix: DatabaseIndexView) -> JsonValueView {
    JsonValueView::Object(
        seq![
            ("name"@, JsonValueView::Str(ix.name)),
            ("tpe"@, encode_index_type_spec(ix.tpe)),
            ("columns"@, JsonValueView::Array(encode_strings_spec(ix.columns))),
        ],
    )
}

pub open spec fn encode_indexes_spec(ixs: Seq<DatabaseIndexView>) -> Seq<JsonValueView>
    decreases ixs.len(),
{
    if ixs.len() == 0 {
        Seq::empty()
    } else {
        encode_indexes_spec(ixs.drop_last()).push(encode_index_spec(ixs.last()))
    }
}

pub open spec fn encode_table_spec(t: DatabaseTableView) -> JsonValueView {
    JsonValueView::Object(
        seq![
            ("name"@, JsonValueView::Str(t.name)),
            ("columns"@, JsonValueView::Array(encode_columns_spec(t.columns))),
            ("indexes"@, JsonValueView::Array(encode_indexes_spec(t.indexes))),
        ],
    )
}

pub open spec fn encode_tables_spec(ts: Seq<DatabaseTableView>) -> Seq<JsonValueView>
    decreases ts.len(),
{
    if ts.len() == 0 {
        Seq::empty()
    } else {
        encode_tables_spec(ts.drop_last()).push(encode_table_spec(ts.last()))
    }
}

pub open spec fn encode_fk_spec(fk: DatabaseForeignKeyView) -> JsonValueView {
    JsonValueView::Object(
        seq![
            ("name"@, JsonValueView::Str(fk.name)),
            ("table_name"@, JsonValueView::Str(fk.table_name)),
            ("referenced_table_name"@, JsonValueView::Str(fk.referenced_table_name)),
            ("column_names"@, JsonValueView::Array(encode_strings_spec(fk.column_names))),
            (
                "referenced_column_names"@,
                JsonValueView::Array(encode_strings_spec(fk.referenced_column_names)),
            ),
            ("on_delete_action"@, encode_action_spec(fk.on_delete_action)),
        ],
    )
}

pub open spec fn encode_fks_spec(fks: Seq<DatabaseForeignKeyView>) -> Seq<JsonValueView>
    decreases fks.len(),
{
    if fks.len() == 0 {
        Seq::empty()
    } else {
        encode_fks_spec(fks.drop_last()).push(encode_fk_spec(fks.last()))
    }
}

pub open spec fn encode_schema_spec(s: DatabaseSchemaView) -> JsonValueView {
    JsonValueView::Object(
        seq![
            ("tables"@, JsonValueView::Array(encode_tables_spec(s.tables))),
            ("foreign_keys"@, JsonValueView::Array(encode_fks_spec(s.foreign_keys))),
        ],
    )
}

// ---------------------------------------------------------------------------
// Spec-level decoding (strict: exactly the encoder's shapes)
// ---------------------------------------------------------------------------
pub open spec fn decode_opt_num_spec(v: JsonValueView) -> Option<Option<u32>> {
    match v {
        JsonValueView::Null => Some(None),
        JsonValueView::Number(n) => Some(Some(n)),
        _ => None,
    }
}

pub open spec fn decode_type_spec(v: JsonValueView) -> Option<DatabaseTypeView> {
    match v {
        JsonValueView::Object(fields) => if fields.len() == 1 && fields[0].0 == "t"@
            && fields[0].1 is Str {
            let tag = fields[0].1->Str_0;
            if tag == "small_int"@ {
                Some(DatabaseTypeView::SmallInt)
            } else if tag == "int"@ {
                Some(DatabaseTypeView::Int)
            } else if tag == "big_int"@ {
                Some(DatabaseTypeView::BigInt)
            } else if tag == "float"@ {
                Some(DatabaseTypeView::Float)
            } else if tag == "decimal"@ {
                Some(DatabaseTypeView::Decimal)
            } else if tag == "boolean"@ {
                Some(DatabaseTypeView::Boolean)
            } else if tag == "binary"@ {
                Some(DatabaseTypeView::Binary)
            } else if tag == "money"@ {
                Some(DatabaseTypeView::Money)
            } else if tag == "inet"@ {
                Some(DatabaseTypeView::Inet)
            } else if tag == "oid"@ {
                Some(DatabaseTypeView::Oid)
            } else if tag == "citext"@ {
                Some(DatabaseTypeView::Citext)
            } else if tag == "double"@ {
                Some(DatabaseTypeView::Double)
            } else if tag == "text"@ {
                Some(DatabaseTypeView::Text)
            } else if tag == "byte_a"@ {
                Some(DatabaseTypeView::ByteA)
            } else if tag == "date"@ {
                Some(DatabaseTypeView::Date)
            } else if tag == "uuid"@ {
                Some(DatabaseTypeView::Uuid)
            } else if tag == "xml"@ {
                Some(DatabaseTypeView::Xml)
            } else if tag == "json"@ {
                Some(DatabaseTypeView::Json)
            } else if tag == "json_b"@ {
                Some(DatabaseTypeView::JsonB)
            } else {
                None
            }
        } else if fields.len() == 2 && fields[0].0 == "t"@ && fields[0].1 is Str && fields[1].0
            == "c"@ {
            let tag = fields[0].1->Str_0;
            let c = fields[1].1;
            if tag == "var_char"@ {
                match decode_opt_num_spec(c) {
                    Some(l) => Some(DatabaseTypeView::VarChar(l)),
                    None => None,
                }
            } else if tag == "char"@ {
                match decode_opt_num_spec(c) {
                    Some(l) => Some(DatabaseTypeView::Char(l)),
                    None => None,
                }
            } else if tag == "timestamp"@ {
                match decode_opt_num_spec(c) {
                    Some(p) => Some(DatabaseTypeView::Timestamp(p)),
                    None => None,
                }
            } else if tag == "timestamptz"@ {
                match decode_opt_num_spec(c) {
                    Some(p) => Some(DatabaseTypeView::Timestamptz(p)),
                    None => None,
                }
            } else if tag == "time"@ {
                match decode_opt_num_spec(c) {
                    Some(p) => Some(DatabaseTypeView::Time(p)),
                    None => None,
                }
            } else if tag == "timetz"@ {
                match decode_opt_num_spec(c) {
                    Some(p) => Some(DatabaseTypeView::Timetz(p)),
                    None => None,
                }
            } else if tag == "enum"@ {
                match c {
                    JsonValueView::Number(id) => Some(DatabaseTypeView::Enum(id)),
                    _ => None,
                }
            } else if tag == "unsupported"@ {
                match c {
                    JsonValueView::Str(raw) => Some(DatabaseTypeView::Unsupported(raw)),
                    _ => None,
                }
            } else {
                None
            }
        } else {
            None
        },
        _ => None,
    }
}

pub open spec fn decode_arity_spec(v: JsonValueView) -> Option<DatabaseColumnArity> {
    match v {
        JsonValueView::Str(s) => if s == "required"@ {
            Some(DatabaseColumnArity::Required)
        } else if s == "nullable"@ {
            Some(DatabaseColumnArity::Nullable)
        } else if s == "list"@ {
            Some(DatabaseColumnArity::List)
        } else {
            None
        },
        _ => None,
    }
}

pub open spec fn decode_index_type_spec(v: JsonValueView) -> Option<DatabaseIndexType> {
    match v {
        JsonValueView::Str(s) => if s == "unique"@ {
            Some(DatabaseIndexType::Unique)
        } else if s == "normal"@ {
            Some(DatabaseIndexType::Normal)
        } else if s == "fulltext"@ {
            Some(DatabaseIndexType::Fulltext)
        } else if s == "primary_key"@ {
            Some(DatabaseIndexType::PrimaryKey)
        } else {
            None
        },
        _ => None,
    }
}

pub open spec fn decode_action_spec(v: JsonValueView) -> Option<DatabaseForeignKeyAction> {
    match v {
        JsonValueView::Str(s) => if s == "no_action"@ {
            Some(DatabaseForeignKeyAction::NoAction)
        } else if s == "restrict"@ {
            Some(DatabaseForeignKeyAction::Restrict)
        } else if s == "cascade"@ {
            Some(DatabaseForeignKeyAction::Cascade)
        } else if s == "set_null"@ {
            Some(DatabaseForeignKeyAction::SetNull)
        } else if s == "set_default"@ {
            Some(DatabaseForeignKeyAction::SetDefault)
        } else {
            None
        },
        _ => None,
    }
}

pub open spec fn decode_strings_spec(vs: Seq<JsonValueView>) -> Option<Seq<Seq<char>>>
    decreases vs.len(),
{
    if vs.len() == 0 {
        Some(Seq::empty())
    } else {
        match decode_strings_spec(vs.drop_last()) {
            Some(pre) => match vs.last() {
                JsonValueView::Str(s) => Some(pre.push(s)),
                _ => None,
            },
            None => None,
        }
    }
}

pub open spec fn decode_column_spec(v: JsonValueView) -> Option<DatabaseColumnView> {
    match v {
        JsonValueView::Object(fields) => if fields.len() == 3 && fields[0].0 == "name"@
            && fields[0].1 is Str && fields[1].0 == "arity"@ && fields[2].0 == "tpe"@ {
            match (decode_arity_spec(fields[1].1), decode_type_spec(fields[2].1)) {
                (Some(arity), Some(tpe)) => Some(
                    DatabaseColumnView { name: fields[0].1->Str_0, arity, tpe },
                ),
                _ => None,
            }
        } else {
            None
        },
        _ => None,
    }
}

pub open spec fn decode_columns_spec(vs: Seq<JsonValueView>) -> Option<Seq<DatabaseColumnView>>
    decreases vs.len(),
{
    if vs.len() == 0 {
        Some(Seq::empty())
    } else {
        match decode_columns_spec(vs.drop_last()) {
            Some(pre) => match decode_column_spec(vs.last()) {
                Some(c) => Some(pre.push(c)),
                None => None,
            },
            None => None,
        }
    }
}

pub open spec fn decode_index_spec(v: JsonValueView) -> Option<DatabaseIndexView> {
    match v {
        JsonValueView::Object(fields) => if fields.len() == 3 && fields[0].0 == "name"@
            && fields[0].1 is Str && fields[1].0 == "tpe"@ && fields[2].0 == "columns"@
            && fields[2].1 is Array {
            match (decode_index_type_spec(fields[1].1), decode_strings_spec(
                fields[2].1->Array_0,
            )) {
                (Some(tpe), Some(columns)) => Some(
                    DatabaseIndexView { name: fields[0].1->Str_0, tpe, columns },
                ),
                _ => None,
            }
        } else {
            None
        },
        _ => None,
    }
}

pub open spec fn decode_indexes_spec(vs: Seq<JsonValueView>) -> Option<Seq<DatabaseIndexView>>
    decreases vs.len(),
{
    if vs.len() == 0 {
        Some(Seq::empty())
    } else {
        match decode_indexes_spec(vs.drop_last()) {
            Some(pre) => match decode_index_spec(vs.last()) {
                Some(ix) => Some(pre.push(ix)),
                None => None,
            },
            None => None,
        }
    }
}

pub open spec fn decode_table_spec(v: JsonValueView) -> Option<DatabaseTableView> {
    match v {
        JsonValueView::Object(fields) => if fields.len() == 3 && fields[0].0 == "name"@
            && fields[0].1 is Str && fields[1].0 == "columns"@ && fields[1].1 is Array
            && fields[2].0 == "indexes"@ && fields[2].1 is Array {
            match (decode_columns_spec(fields[1].1->Array_0), decode_indexes_spec(
                fields[2].1->Array_0,
            )) {
                (Some(columns), Some(indexes)) => Some(
                    DatabaseTableView { name: fields[0].1->Str_0, columns, indexes },
                ),
                _ => None,
            }
        } else {
            None
        },
        _ => None,
    }
}

pub open spec fn decode_tables_spec(vs: Seq<JsonValueView>) -> Option<Seq<DatabaseTableView>>
    decreases vs.len(),
{
    if vs.len() == 0 {
        Some(Seq::empty())
    } else {
        match decode_tables_spec(vs.drop_last()) {
            Some(pre) => match decode_table_spec(vs.last()) {
                Some(t) => Some(pre.push(t)),
                None => None,
            },
            None => None,
        }
    }
}

pub open spec fn decode_fk_spec(v: JsonValueView) -> Option<DatabaseForeignKeyView> {
    match v {
        JsonValueView::Object(fields) => if fields.len() == 6 && fields[0].0 == "name"@
            && fields[0].1 is Str && fields[1].0 == "table_name"@ && fields[1].1 is Str
            && fields[2].0 == "referenced_table_name"@ && fields[2].1 is Str && fields[3].0
            == "column_names"@ && fields[3].1 is Array && fields[4].0
            == "referenced_column_names"@ && fields[4].1 is Array && fields[5].0
            == "on_delete_action"@ {
            match (decode_strings_spec(fields[3].1->Array_0), decode_strings_spec(
                fields[4].1->Array_0,
            ), decode_action_spec(fields[5].1)) {
                (Some(column_names), Some(referenced_column_names), Some(on_delete_action)) => Some(
                    DatabaseForeignKeyView {
                        name: fields[0].1->Str_0,
                        table_name: fields[1].1->Str_0,
                        referenced_table_name: fields[2].1->Str_0,
                        column_names,
                        referenced_column_names,
                        on_delete_action,
                    },
                ),
                _ => None,
            }
        } else {
            None
        },
        _ => None,
    }
}

pub open spec fn decode_fks_spec(vs: Seq<JsonValueView>) -> Option<Seq<DatabaseForeignKeyView>>
    decreases vs.len(),
{
    if vs.len() == 0 {
        Some(Seq::empty())
    } else {
        match decode_fks_spec(vs.drop_last()) {
            Some(pre) => match decode_fk_spec(vs.last()) {
                Some(fk) => Some(pre.push(fk)),
                None => None,
            },
            None => None,
        }
    }
}

pub open spec fn decode_schema_spec(v: JsonValueView) -> Option<DatabaseSchemaView> {
    match v {
        JsonValueView::Object(fields) => if fields.len() == 2 && fields[0].0 == "tables"@
            && fields[0].1 is Array && fields[1].0 == "foreign_keys"@ && fields[1].1 is Array {
            match (decode_tables_spec(fields[0].1->Array_0), decode_fks_spec(
                fields[1].1->Array_0,
            )) {
                (Some(tables), Some(foreign_keys)) => Some(
                    DatabaseSchemaView { tables, foreign_keys },
                ),
                _ => None,
            }
        } else {
            None
        },
        _ => None,
    }
}

// ---------------------------------------------------------------------------
// Round trip: decoding an encoded value gives the value back
// ---------------------------------------------------------------------------
#[verifier::rlimit(100)]
proof fn lemma_type_round_trip(t: DatabaseTypeView)
    ensures
        decode_type_spec(encode_type_spec(t)) == Some(t),
{
    // The length and leading characters of each tag let the solver tell
    // any two tags apart when it walks the decoder's comparison chain.
    reveal_strlit("small_int");
    reveal_strlit("int");
    reveal_strlit("big_int");
    reveal_strlit("float");
    reveal_strlit("decimal");
    reveal_strlit("boolean");
    reveal_strlit("binary");
    reveal_strlit("enum");
    reveal_strlit("unsupported");
    reveal_strlit("money");
    reveal_strlit("inet");
    reveal_strlit("oid");
    reveal_strlit("citext");
    reveal_strlit("double");
    reveal_strlit("var_char");
    reveal_strlit("char");
    reveal_strlit("text");
    reveal_strlit("byte_a");
    reveal_strlit("timestamp");
    reveal_strlit("timestamptz");
    reveal_strlit("date");
    reveal_strlit("time");
    reveal_strlit("timetz");
    reveal_strlit("uuid");
    reveal_strlit("xml");
    reveal_strlit("json");
    reveal_strlit("json_b");
    assert("small_int"@[0] == 's');
    assert("int"@[0] == 'i');
    assert("big_int"@[0] == 'b');
    assert("float"@[0] == 'f');
    assert("decimal"@[0] == 'd');
    assert("boolean"@[0] == 'b');
    assert("binary"@[0] == 'b');
    assert("binary"@[1] == 'i');
    assert("enum"@[0] == 'e');
    assert("unsupported"@[0] == 'u');
    assert("money"@[0] == 'm');
    assert("inet"@[0] == 'i');
    assert("oid"@[0] == 'o');
    assert("citext"@[0] == 'c');
    assert("double"@[0] == 'd');
    assert("var_char"@[0] == 'v');
    assert("char"@[0] == 'c');
    assert("text"@[0] == 't');
    assert("text"@[1] == 'e');
    assert("byte_a"@[0] == 'b');
    assert("byte_a"@[1] == 'y');
    assert("timestamp"@[0] == 't');
    assert("timestamptz"@[0] == 't');
    assert("date"@[0] == 'd');
    assert("time"@[0] == 't');
    assert("time"@[1] == 'i');
    assert("timetz"@[0] == 't');
    assert("timetz"@[1] == 'i');
    assert("uuid"@[0] == 'u');
    assert("xml"@[0] == 'x');
    assert("json"@[0] == 'j');
    assert("json_b"@[0] == 'j');
    assert("json_b"@[1] == 's');
    assert("small_int"@.len() == 9);
    assert("int"@.len() == 3);
    assert("big_int"@.len() == 7);
    assert("float"@.len() == 5);
    assert("decimal"@.len() == 7);
    assert("boolean"@.len() == 7);
    assert("binary"@.len() == 6);
    assert("enum"@.len() == 4);
    assert("unsupported"@.len() == 11);
    assert("money"@.len() == 5);
    assert("inet"@.len() == 4);
    assert("oid"@.len() == 3);
    assert("citext"@.len() == 6);
    assert("double"@.len() == 6);
    assert("var_char"@.len() == 8);
    assert("char"@.len() == 4);
    assert("text"@.len() == 4);
    assert("byte_a"@.len() == 6);
    assert("timestamp"@.len() == 9);
    assert("timestamptz"@.len() == 11);
    assert("date"@.len() == 4);
    assert("time"@.len() == 4);
    assert("timetz"@.len() == 6);
    assert("uuid"@.len() == 4);
    assert("xml"@.len() == 3);
    assert("json"@.len() == 4);
    assert("json_b"@.len() == 6);
    assert("big_int"@[1] == 'i');
    assert("boolean"@[1] == 'o');
}

proof fn lemma_arity_round_trip(a: DatabaseColumnArity)
    ensures
        decode_arity_spec(encode_arity_spec(a)) == Some(a),
{
    reveal_strlit("required");
    reveal_strlit("nullable");
    reveal_strlit("list");
    assert("required"@[0] == 'r');
    assert("nullable"@[0] == 'n');
    assert("list"@[0] == 'l');
}

proof fn lemma_index_type_round_trip(t: DatabaseIndexType)
    ensures
        decode_index_type_spec(encode_index_type_spec(t)) == Some(t),
{
    reveal_strlit("unique");
    reveal_strlit("normal");
    reveal_strlit("fulltext");
    reveal_strlit("primary_key");
    assert("unique"@[0] == 'u');
    assert("normal"@[0] == 'n');
    assert("fulltext"@[0] == 'f');
    assert("primary_key"@[0] == 'p');
}

proof fn lemma_action_round_trip(a: DatabaseForeignKeyAction)
    ensures
        decode_action_spec(encode_action_spec(a)) == Some(a),
{
    reveal_strlit("no_action");
    reveal_strlit("restrict");
    reveal_strlit("cascade");
    reveal_strlit("set_null");
    reveal_strlit("set_default");
    assert("no_action"@[0] == 'n');
    assert("restrict"@[0] == 'r');
    assert("cascade"@[0] == 'c');
    assert("set_null"@[0] == 's');
    assert("set_default"@[0] == 's');
    assert("set_null"@[4] == 'n');
    assert("set_default"@[4] == 'd');
}

proof fn lemma_strings_round_trip(ss: Seq<Seq<char>>)
    ensures
        decode_strings_spec(encode_strings_spec(ss)) == Some(ss),
    decreases ss.len(),
{
    if ss.len() == 0 {
        assert(ss =~= Seq::<Seq<char>>::empty());
    } else {
        lemma_strings_round_trip(ss.drop_last());
        let es = encode_strings_spec(ss);
        assert(es.drop_last() =~= encode_strings_spec(ss.drop_last()));
        assert(ss.drop_last().push(ss.last()) =~= ss);
    }
}

proof fn lemma_column_round_trip(c: DatabaseColumnView)
    ensures
        decode_column_spec(encode_column_spec(c)) == Some(c),
{
    lemma_arity_round_trip(c.arity);
    lemma_type_round_trip(c.tpe);
    assert(decode_column_spec(encode_column_spec(c))->0 =~= c);
}

proof fn lemma_columns_round_trip(cs: Seq<DatabaseColumnView>)
    ensures
        decode_columns_spec(encode_columns_spec(cs)) == Some(cs),
    decreases cs.len(),
{
    if cs.len() == 0 {
        assert(cs =~= Seq::<DatabaseColumnView>::empty());
    } else {
        lemma_columns_round_trip(cs.drop_last());
        lemma_column_round_trip(cs.last());
        let es = encode_columns_spec(cs);
        assert(es.drop_last() =~= encode_columns_spec(cs.drop_last()));
        assert(cs.drop_last().push(cs.last()) =~= cs);
    }
}

proof fn lemma_index_round_trip(ix: DatabaseIndexView)
    ensures
        decode_index_spec(encode_index_spec(ix)) == Some(ix),
{
    lemma_index_type_round_trip(ix.tpe);
    lemma_strings_round_trip(ix.columns);
    assert(decode_index_spec(encode_index_spec(ix))->0 =~= ix);
}

proof fn lemma_indexes_round_trip(ixs: Seq<DatabaseIndexView>)
    ensures
        decode_indexes_spec(encode_indexes_spec(ixs)) == Some(ixs),
    decreases ixs.len(),
{
    if ixs.len() == 0 {
        assert(ixs =~= Seq::<DatabaseIndexView>::empty());
    } else {
        lemma_indexes_round_trip(ixs.drop_last());
        lemma_index_round_trip(ixs.last());
        let es = encode_indexes_spec(ixs);
        assert(es.drop_last() =~= encode_indexes_spec(ixs.drop_last()));
        assert(ixs.drop_last().push(ixs.last()) =~= ixs);
    }
}

proof fn lemma_table_round_trip(t: DatabaseTableView)
    ensures
        decode_table_spec(encode_table_spec(t)) == Some(t),
{
    lemma_columns_round_trip(t.columns);
    lemma_indexes_round_trip(t.indexes);
    assert(decode_table_spec(encode_table_spec(t))->0 =~= t);
}

proof fn lemma_tables_round_trip(ts: Seq<DatabaseTableView>)
    ensures
        decode_tables_spec(encode_tables_spec(ts)) == Some(ts),
    decreases ts.len(),
{
    if ts.len() == 0 {
        assert(ts =~= Seq::<DatabaseTableView>::empty());
    } else {
        lemma_tables_round_trip(ts.drop_last());
        lemma_table_round_trip(ts.last());
        let es = encode_tables_spec(ts);
        assert(es.drop_last() =~= encode_tables_spec(ts.drop_last()));
        assert(ts.drop_last().push(ts.last()) =~= ts);
    }
}

proof fn lemma_fk_round_trip(fk: DatabaseForeignKeyView)
    ensures
        decode_fk_spec(encode_fk_spec(fk)) == Some(fk),
{
    lemma_strings_round_trip(fk.column_names);
    lemma_strings_round_trip(fk.referenced_column_names);
    lemma_action_round_trip(fk.on_delete_action);
    assert(decode_fk_spec(encode_fk_spec(fk))->0 =~= fk);
}

proof fn lemma_fks_round_trip(fks: Seq<DatabaseForeignKeyView>)
    ensures
        decode_fks_spec(encode_fks_spec(fks)) == Some(fks),
    decreases fks.len(),
{
    if fks.len() == 0 {
        assert(fks =~= Seq::<DatabaseForeignKeyView>::empty());
    } else {
        lemma_fks_round_trip(fks.drop_last());
        lemma_fk_round_trip(fks.last());
        let es = encode_fks_spec(fks);
        assert(es.drop_last() =~= encode_fks_spec(fks.drop_last()));
        assert(fks.drop_last().push(fks.last()) =~= fks);
    }
}

/// Round trip: encoding a canonical schema and decoding the result gives
/// back an equal schema, tag for tag, enum references and raw descriptions
/// of unsupported types included.
pub proof fn lemma_schema_round_trip(s: DatabaseSchemaView)
    ensures
        decode_schema_spec(encode_schema_spec(s)) == Some(s),
{
    lemma_tables_round_trip(s.tables);
    lemma_fks_round_trip(s.foreign_keys);
    assert(decode_schema_spec(encode_schema_spec(s))->0 =~= s);
}

/// Determinism through serialization: equal canonical schemas encode to
/// equal documents and render to identical text, byte for byte.
pub proof fn lemma_serialization_deterministic(a: DatabaseSchemaView, b: DatabaseSchemaView)
    requires
        a == b,
    ensures
        encode_schema_spec(a) == encode_schema_spec(b),
        json_text(encode_schema_spec(a)) == json_text(encode_schema_spec(b)),
{
}

// ---------------------------------------------------------------------------
// Executable encoding
// ---------------------------------------------------------------------------
fn push_field(fields: &mut Vec<(String, JsonValue)>, key: &str, val: JsonValue)
    ensures
        jv_fields_view(final(fields)@) == jv_fields_view(old(fields)@).push((key@, jv_view(val))),
{
    let ghost vv = jv_view(val);
    let ghost g = fields@;
    fields.push((String::from_str(key), val));
    proof {
        lemma_jv_fields_view_push(g, fields@.last());
    }
}

proof fn lemma_jv_fields_view_empty()
    ensures
        jv_fields_view(Seq::<(String, JsonValue)>::empty()) == Seq::<(
            Seq<char>,
            JsonValueView,
        )>::empty(),
{
}

fn jv_tag_only(tag: &str) -> (v: JsonValue)
    ensures
        jv_view(v) == tag_only(tag@),
{
    let mut fields: Vec<(String, JsonValue)> = Vec::new();
    proof {
        lemma_jv_fields_view_empty();
    }
    push_field(&mut fields, "t", JsonValue::Str(String::from_str(tag)));
    let r = JsonValue::Object(fields);
    proof {
        assert(jv_view(r) =~= tag_only(tag@));
    }
    r
}

fn jv_tag_content(tag: &str, c: JsonValue) -> (v: JsonValue)
    ensures
        jv_view(v) == tag_content(tag@, jv_view(c)),
{
    let ghost cv = jv_view(c);
    let mut fields: Vec<(String, JsonValue)> = Vec::new();
    proof {
        lemma_jv_fields_view_empty();
    }
    push_field(&mut fields, "t", JsonValue::Str(String::from_str(tag)));
    push_field(&mut fields, "c", c);
    let r = JsonValue::Object(fields);
    proof {
        assert(jv_fields_view(fields@) =~= seq![
            ("t"@, JsonValueView::Str(tag@)),
            ("c"@, cv),
        ]);
        assert(jv_view(r) =~= tag_content(tag@, cv));
    }
    r
}

fn opt_num_exec(p: &Option<u32>) -> (v: JsonValue)
    ensures
        jv_view(v) == opt_num(*p),
{
    match p {
        Some(n) => JsonValue::Number(*n),
        None => JsonValue::Null,
    }
}

/// Encodes one canonical type as its tagged object.
pub fn encode_type(t: &DatabaseType) -> (v: JsonValue)
    ensures
        jv_view(v) == encode_type_spec(t@),
{
    match t {
        DatabaseType::SmallInt => jv_tag_only("small_int"),
        DatabaseType::Int => jv_tag_only("int"),
        DatabaseType::BigInt => jv_tag_only("big_int"),
        DatabaseType::Float => jv_tag_only("float"),
        DatabaseType::Decimal => jv_tag_only("decimal"),
        DatabaseType::Boolean => jv_tag_only("boolean"),
        DatabaseType::Binary => jv_tag_only("binary"),
        DatabaseType::Enum(id) => jv_tag_content("enum", JsonValue::Number(*id)),
        DatabaseType::Unsupported(raw) => jv_tag_content(
            "unsupported",
            JsonValue::Str(raw.clone()),
        ),
        DatabaseType::Money => jv_tag_only("money"),
        DatabaseType::Inet => jv_tag_only("inet"),
        DatabaseType::Oid => jv_tag_only("oid"),
        DatabaseType::Citext => jv_tag_only("citext"),
        DatabaseType::Double => jv_tag_only("double"),
        DatabaseType::VarChar(l) => jv_tag_content("var_char", opt_num_exec(l)),
        DatabaseType::Char(l) => jv_tag_content("char", opt_num_exec(l)),
        DatabaseType::Text => jv_tag_only("text"),
        DatabaseType::ByteA => jv_tag_only("byte_a"),
        DatabaseType::Timestamp(p) => jv_tag_content("timestamp", opt_num_exec(p)),
        DatabaseType::Timestamptz(p) => jv_tag_content("timestamptz", opt_num_exec(p)),
        DatabaseType::Date => jv_tag_only("date"),
        DatabaseType::Time(p) => jv_tag_content("time", opt_num_exec(p)),
        DatabaseType::Timetz(p) => jv_tag_content("timetz", opt_num_exec(p)),
        DatabaseType::Uuid => jv_tag_only("uuid"),
        DatabaseType::Xml => jv_tag_only("xml"),
        DatabaseType::Json => jv_tag_only("json"),
        DatabaseType::JsonB => jv_tag_only("json_b"),
    }
}

fn encode_arity(a: &DatabaseColumnArity) -> (v: JsonValue)
    ensures
        jv_view(v) == encode_arity_spec(*a),
{
    match a {
        DatabaseColumnArity::Required => JsonValue::Str(String::from_str("required")),
        DatabaseColumnArity::Nullable => JsonValue::Str(String::from_str("nullable")),
        DatabaseColumnArity::List => JsonValue::Str(String::from_str("list")),
    }
}

fn encode_index_type(t: &DatabaseIndexType) -> (v: JsonValue)
    ensures
        jv_view(v) == encode_index_type_spec(*t),
{
    match t {
        DatabaseIndexType::Unique => JsonValue::Str(String::from_str("unique")),
        DatabaseIndexType::Normal => JsonValue::Str(String::from_str("normal")),
        DatabaseIndexType::Fulltext => JsonValue::Str(String::from_str("fulltext")),
        DatabaseIndexType::PrimaryKey => JsonValue::Str(String::from_str("primary_key")),
    }
}

fn encode_action(a: &DatabaseForeignKeyAction) -> (v: JsonValue)
    ensures
        jv_view(v) == encode_action_spec(*a),
{
    match a {
        DatabaseForeignKeyAction::NoAction => JsonValue::Str(String::from_str("no_action")),
        DatabaseForeignKeyAction::Restrict => JsonValue::Str(String::from_str("restrict")),
        DatabaseForeignKeyAction::Cascade => JsonValue::Str(String::from_str("cascade")),
        DatabaseForeignKeyAction::SetNull => JsonValue::Str(String::from_str("set_null")),
        DatabaseForeignKeyAction::SetDefault => JsonValue::Str(String::from_str("set_default")),
    }
}

#[verifier::loop_isolation(false)]
fn encode_strings(ss: &Vec<String>) -> (v: JsonValue)
    ensures
        jv_view(v) == JsonValueView::Array(
            encode_strings_spec(ss@.map_values(|s: String| s@)),
        ),
{
    let ghost target = ss@.map_values(|s: String| s@);
    let mut elems: Vec<JsonValue> = Vec::new();
    let mut i: usize = 0;
    while i < ss.len()
        invariant
            i <= ss.len(),
            jv_seq_view(elems@) == encode_strings_spec(target.take(i as int)),
        decreases ss.len() - i,
    {
        let ghost g = elems@;
        elems.push(JsonValue::Str(ss[i].clone()));
        proof {
            lemma_jv_seq_view_push(g, elems@.last());
            assert(target.take(i + 1).drop_last() =~= target.take(i as int));
            assert(target.take(i + 1).last() == target[i as int]);
        }
        i += 1;
    }
    proof {
        assert(target.take(ss@.len() as int) =~= target);
    }
    JsonValue::Array(elems)
}

/// Encodes one column as its record object.
pub fn encode_column(c: &DatabaseColumn) -> (v: JsonValue)
    ensures
        jv_view(v) == encode_column_spec(c@),
{
    let mut fields: Vec<(String, JsonValue)> = Vec::new();
    proof {
        lemma_jv_fields_view_empty();
    }
    push_field(&mut fields, "name", JsonValue::Str(c.name.clone()));
    push_field(&mut fields, "arity", encode_arity(&c.arity));
    push_field(&mut fields, "tpe", encode_type(&c.tpe));
    let r = JsonValue::Object(fields);
    proof {
        assert(jv_fields_view(fields@) =~= seq![
            ("name"@, JsonValueView::Str(c.name@)),
            ("arity"@, encode_arity_spec(c.arity)),
            ("tpe"@, encode_type_spec(c.tpe@)),
        ]);
        assert(jv_view(r) =~= encode_column_spec(c@));
    }
    r
}

/// Encodes one index as its record object.
pub fn encode_index(ix: &DatabaseIndex) -> (v: JsonValue)
    ensures
        jv_view(v) == encode_index_spec(ix@),
{
    let mut fields: Vec<(String, JsonValue)> = Vec::new();
    proof {
        lemma_jv_fields_view_empty();
    }
    push_field(&mut fields, "name", JsonValue::Str(ix.name.clone()));
    push_field(&mut fields, "tpe", encode_index_type(&ix.tpe));
    push_field(&mut fields, "columns", encode_strings(&ix.columns));
    let r = JsonValue::Object(fields);
    proof {
        assert(jv_fields_view(fields@) =~= seq![
            ("name"@, JsonValueView::Str(ix.name@)),
            ("tpe"@, encode_index_type_spec(ix.tpe)),
            (
                "columns"@,
                JsonValueView::Array(
                    encode_strings_spec(ix.columns@.map_values(|s: String| s@)),
                ),
            ),
        ]);
        assert(jv_view(r) =~= encode_index_spec(ix@));
    }
    r
}

#[verifier::loop_isolation(false)]
fn encode_columns(cs: &Vec<DatabaseColumn>) -> (v: JsonValue)
    ensures
        jv_view(v) == JsonValueView::Array(
            encode_columns_spec(cs@.map_values(|c: DatabaseColumn| c@)),
        ),
{
    let ghost target = cs@.map_values(|c: DatabaseColumn| c@);
    let mut elems: Vec<JsonValue> = Vec::new();
    let mut i: usize = 0;
    while i < cs.len()
        invariant
            i <= cs.len(),
            jv_seq_view(elems@) == encode_columns_spec(target.take(i as int)),
        decreases cs.len() - i,
    {
        let ghost g = elems@;
        elems.push(encode_column(&cs[i]));
        proof {
            lemma_jv_seq_view_push(g, elems@.last());
            assert(target.take(i + 1).drop_last() =~= target.take(i as int));
            assert(target.take(i + 1).last() == target[i as int]);
        }
        i += 1;
    }
    proof {
        assert(target.take(cs@.len() as int) =~= target);
    }
    JsonValue::Array(elems)
}

#[verifier::loop_isolation(false)]
fn encode_indexes(ixs: &Vec<DatabaseIndex>) -> (v: JsonValue)
    ensures
        jv_view(v) == JsonValueView::Array(
            encode_indexes_spec(ixs@.map_values(|ix: DatabaseIndex| ix@)),
        ),
{
    let ghost target = ixs@.map_values(|ix: DatabaseIndex| ix@);
    let mut elems: Vec<JsonValue> = Vec::new();
    let mut i: usize = 0;
    while i < ixs.len()
        invariant
            i <= ixs.len(),
            jv_seq_view(elems@) == encode_indexes_spec(target.take(i as int)),
        decreases ixs.len() - i,
    {
        let ghost g = elems@;
        elems.push(encode_index(&ixs[i]));
        proof {
            lemma_jv_seq_view_push(g, elems@.last());
            assert(target.take(i + 1).drop_last() =~= target.take(i as int));
            assert(target.take(i + 1).last() == target[i as int]);
        }
        i += 1;
    }
    proof {
        assert(target.take(ixs@.len() as int) =~= target);
    }
    JsonValue::Array(elems)
}

/// Encodes one table as its record object.
pub fn encode_table(t: &DatabaseTable) -> (v: JsonValue)
    ensures
        jv_view(v) == encode_table_spec(t@),
{
    let mut fields: Vec<(String, JsonValue)> = Vec::new();
    proof {
        lemma_jv_fields_view_empty();
    }
    push_field(&mut fields, "name", JsonValue::Str(t.name.clone()));
    push_field(&mut fields, "columns", encode_columns(&t.columns));
    push_field(&mut fields, "indexes", encode_indexes(&t.indexes));
    let r = JsonValue::Object(fields);
    proof {
        assert(jv_fields_view(fields@) =~= seq![
            ("name"@, JsonValueView::Str(t.name@)),
            (
                "columns"@,
                JsonValueView::Array(
                    encode_columns_spec(t.columns@.map_values(|c: DatabaseColumn| c@)),
                ),
            ),
            (
                "indexes"@,
                JsonValueView::Array(
                    encode_indexes_spec(t.indexes@.map_values(|ix: DatabaseIndex| ix@)),
                ),
            ),
        ]);
        assert(jv_view(r) =~= encode_table_spec(t@));
    }
    r
}

/// Encodes one foreign key as its record object.
pub fn encode_foreign_key(fk: &DatabaseForeignKey) -> (v: JsonValue)
    ensures
        jv_view(v) == encode_fk_spec(fk@),
{
    let mut fields: Vec<(String, JsonValue)> = Vec::new();
    proof {
        lemma_jv_fields_view_empty();
    }
    push_field(&mut fields, "name", JsonValue::Str(fk.name.clone()));
    push_field(&mut fields, "table_name", JsonValue::Str(fk.table_name.clone()));
    push_field(
        &mut fields,
        "referenced_table_name",
        JsonValue::Str(fk.referenced_table_name.clone()),
    );
    push_field(&mut fields, "column_names", encode_strings(&fk.column_names));
    push_field(
        &mut fields,
        "referenced_column_names",
        encode_strings(&fk.referenced_column_names),
    );
    push_field(&mut fields, "on_delete_action", encode_action(&fk.on_delete_action));
    let r = JsonValue::Object(fields);
    proof {
        assert(jv_fields_view(fields@) =~= seq![
            ("name"@, JsonValueView::Str(fk.name@)),
            ("table_name"@, JsonValueView::Str(fk.table_name@)),
            ("referenced_table_name"@, JsonValueView::Str(fk.referenced_table_name@)),
            (
                "column_names"@,
                JsonValueView::Array(
                    encode_strings_spec(fk.column_names@.map_values(|s: String| s@)),
                ),
            ),
            (
                "referenced_column_names"@,
                JsonValueView::Array(
                    encode_strings_spec(
                        fk.referenced_column_names@.map_values(|s: String| s@),
                    ),
                ),
            ),
            ("on_delete_action"@, encode_action_spec(fk.on_delete_action)),
        ]);
        assert(jv_view(r) =~= encode_fk_spec(fk@));
    }
    r
}

#[verifier::loop_isolation(false)]
fn encode_tables(ts: &Vec<DatabaseTable>) -> (v: JsonValue)
    ensures
        jv_view(v) == JsonValueView::Array(
            encode_tables_spec(ts@.map_values(|t: DatabaseTable| t@)),
        ),
{
    let ghost target = ts@.map_values(|t: DatabaseTable| t@);
    let mut elems: Vec<JsonValue> = Vec::new();
    let mut i: usize = 0;
    while i < ts.len()
        invariant
            i <= ts.len(),
            jv_seq_view(elems@) == encode_tables_spec(target.take(i as int)),
        decreases ts.len() - i,
    {
        let ghost g = elems@;
        elems.push(encode_table(&ts[i]));
        proof {
            lemma_jv_seq_view_push(g, elems@.last());
            assert(target.take(i + 1).drop_last() =~= target.take(i as int));
            assert(target.take(i + 1).last() == target[i as int]);
        }
        i += 1;
    }
    proof {
        assert(target.take(ts@.len() as int) =~= target);
    }
    JsonValue::Array(elems)
}

#[verifier::loop_isolation(false)]
fn encode_foreign_keys(fks: &Vec<DatabaseForeignKey>) -> (v: JsonValue)
    ensures
        jv_view(v) == JsonValueView::Array(
            encode_fks_spec(fks@.map_values(|fk: DatabaseForeignKey| fk@)),
        ),
{
    let ghost target = fks@.map_values(|fk: DatabaseForeignKey| fk@);
    let mut elems: Vec<JsonValue> = Vec::new();
    let mut i: usize = 0;
    while i < fks.len()
        invariant
            i <= fks.len(),
            jv_seq_view(elems@) == encode_fks_spec(target.take(i as int)),
        decreases fks.len() - i,
    {
        let ghost g = elems@;
        elems.push(encode_foreign_key(&fks[i]));
        proof {
            lemma_jv_seq_view_push(g, elems@.last());
            assert(target.take(i + 1).drop_last() =~= target.take(i as int));
            assert(target.take(i + 1).last() == target[i as int]);
        }
        i += 1;
    }
    proof {
        assert(target.take(fks@.len() as int) =~= target);
    }
    JsonValue::Array(elems)
}

/// Encodes a whole canonical schema as its tagged document.
pub fn encode_schema(s: &DatabaseSchema) -> (v: JsonValue)
    ensures
        jv_view(v) == encode_schema_spec(s@),
{
    let mut fields: Vec<(String, JsonValue)> = Vec::new();
    proof {
        lemma_jv_fields_view_empty();
    }
    push_field(&mut fields, "tables", encode_tables(&s.tables));
    push_field(&mut fields, "foreign_keys", encode_foreign_keys(&s.foreign_keys));
    let r = JsonValue::Object(fields);
    proof {
        assert(jv_fields_view(fields@) =~= seq![
            (
                "tables"@,
                JsonValueView::Array(
                    encode_tables_spec(s.tables@.map_values(|t: DatabaseTable| t@)),
                ),
            ),
            (
                "foreign_keys"@,
                JsonValueView::Array(
                    encode_fks_spec(s.foreign_keys@.map_values(|fk: DatabaseForeignKey| fk@)),
                ),
            ),
        ]);
        assert(jv_view(r) =~= encode_schema_spec(s@));
    }
    r
}

/// Serializes a canonical schema: the compact JSON text of its tagged
/// document, identical byte for byte on every run over equal schemas.
pub fn schema_to_json(s: &DatabaseSchema) -> (r: String)
    ensures
        r@ == json_text(encode_schema_spec(s@)),
{
    let v = encode_schema(s);
    crate::json::render(&v)
}

// ---------------------------------------------------------------------------
// Executable decoding
// ---------------------------------------------------------------------------
fn str_is(s: &String, lit: &str) -> (r: bool)
    ensures
        r == (s@ == lit@),
{
    let l = String::from_str(lit);
    *s == l
}

fn decode_opt_num(v: &JsonValue) -> (r: Option<Option<u32>>)
    ensures
        r == decode_opt_num_spec(jv_view(*v)),
{
    match v {
        JsonValue::Null => Some(None),
        JsonValue::Number(n) => Some(Some(*n)),
        _ => None,
    }
}

/// Decodes a tagged type object; `None` for anything the encoder does not
/// produce.
pub fn decode_type(v: &JsonValue) -> (r: Option<DatabaseType>)
    ensures
        match r {
            Some(t) => decode_type_spec(jv_view(*v)) == Some(t@),
            None => decode_type_spec(jv_view(*v)) is None,
        },
{
    match v {
        JsonValue::Object(fields) => {
            proof {
                lemma_jv_fields_view_len(fields@);
                if fields@.len() > 0 {
                    lemma_jv_fields_view_index(fields@, 0);
                }
                if fields@.len() > 1 {
                    lemma_jv_fields_view_index(fields@, 1);
                }
            }
            if fields.len() == 1 {
                if !str_is(&fields[0].0, "t") {
                    return None;
                }
                match &fields[0].1 {
                    JsonValue::Str(tag) => {
                        if str_is(tag, "small_int") {
                            Some(DatabaseType::SmallInt)
                        } else if str_is(tag, "int") {
                            Some(DatabaseType::Int)
                        } else if str_is(tag, "big_int") {
                            Some(DatabaseType::BigInt)
                        } else if str_is(tag, "float") {
                            Some(DatabaseType::Float)
                        } else if str_is(tag, "decimal") {
                            Some(DatabaseType::Decimal)
                        } else if str_is(tag, "boolean") {
                            Some(DatabaseType::Boolean)
                        } else if str_is(tag, "binary") {
                            Some(DatabaseType::Binary)
                        } else if str_is(tag, "money") {
                            Some(DatabaseType::Money)
                        } else if str_is(tag, "inet") {
                            Some(DatabaseType::Inet)
                        } else if str_is(tag, "oid") {
                            Some(DatabaseType::Oid)
                        } else if str_is(tag, "citext") {
                            Some(DatabaseType::Citext)
                        } else if str_is(tag, "double") {
                            Some(DatabaseType::Double)
                        } else if str_is(tag, "text") {
                            Some(DatabaseType::Text)
                        } else if str_is(tag, "byte_a") {
                            Some(DatabaseType::ByteA)
                        } else if str_is(tag, "date") {
                            Some(DatabaseType::Date)
                        } else if str_is(tag, "uuid") {
                            Some(DatabaseType::Uuid)
                        } else if str_is(tag, "xml") {
                            Some(DatabaseType::Xml)
                        } else if str_is(tag, "json") {
                            Some(DatabaseType::Json)
                        } else if str_is(tag, "json_b") {
                            Some(DatabaseType::JsonB)
                        } else {
                            None
                        }
                    },
                    _ => None,
                }
            } else if fields.len() == 2 {
                if !str_is(&fields[0].0, "t") {
                    return None;
                }
                if !str_is(&fields[1].0, "c") {
                    return None;
                }
                match &fields[0].1 {
                    JsonValue::Str(tag) => {
                        let c = &fields[1].1;
                        if str_is(tag, "var_char") {
                            match decode_opt_num(c) {
                                Some(l) => Some(DatabaseType::VarChar(l)),
                                None => None,
                            }
                        } else if str_is(tag, "char") {
                            match decode_opt_num(c) {
                                Some(l) => Some(DatabaseType::Char(l)),
                                None => None,
                            }
                        } else if str_is(tag, "timestamp") {
                            match decode_opt_num(c) {
                                Some(p) => Some(DatabaseType::Timestamp(p)),
                                None => None,
                            }
                        } else if str_is(tag, "timestamptz") {
                            match decode_opt_num(c) {
                                Some(p) => Some(DatabaseType::Timestamptz(p)),
                                None => None,
                            }
                        } else if str_is(tag, "time") {
                            match decode_opt_num(c) {
                                Some(p) => Some(DatabaseType::Time(p)),
                                None => None,
                            }
                        } else if str_is(tag, "timetz") {
                            match decode_opt_num(c) {
                                Some(p) => Some(DatabaseType::Timetz(p)),
                                None => None,
                            }
                        } else if str_is(tag, "enum") {
                            match c {
                                JsonValue::Number(id) => Some(DatabaseType::Enum(*id)),
                                _ => None,
                            }
                        } else if str_is(tag, "unsupported") {
                            match c {
                                JsonValue::Str(raw) => Some(DatabaseType::Unsupported(raw.clone())),
                                _ => None,
                            }
                        } else {
                            None
                        }
                    },
                    _ => None,
                }
            } else {
                None
            }
        },
        _ => None,
    }
}

fn decode_arity(v: &JsonValue) -> (r: Option<DatabaseColumnArity>)
    ensures
        r == decode_arity_spec(jv_view(*v)),
{
    match v {
        JsonValue::Str(s) => {
            if str_is(s, "required") {
                Some(DatabaseColumnArity::Required)
            } else if str_is(s, "nullable") {
                Some(DatabaseColumnArity::Nullable)
            } else if str_is(s, "list") {
                Some(DatabaseColumnArity::List)
            } else {
                None
            }
        },
        _ => None,
    }
}

fn decode_index_type(v: &JsonValue) -> (r: Option<DatabaseIndexType>)
    ensures
        r == decode_index_type_spec(jv_view(*v)),
{
    match v {
        JsonValue::Str(s) => {
            if str_is(s, "unique") {
                Some(DatabaseIndexType::Unique)
            } else if str_is(s, "normal") {
                Some(DatabaseIndexType::Normal)
            } else if str_is(s, "fulltext") {
                Some(DatabaseIndexType::Fulltext)
            } else if str_is(s, "primary_key") {
                Some(DatabaseIndexType::PrimaryKey)
            } else {
                None
            }
        },
        _ => None,
    }
}

fn decode_action(v: &JsonValue) -> (r: Option<DatabaseForeignKeyAction>)
    ensures
        r == decode_action_spec(jv_view(*v)),
{
    match v {
        JsonValue::Str(s) => {
            if str_is(s, "no_action") {
                Some(DatabaseForeignKeyAction::NoAction)
            } else if str_is(s, "restrict") {
                Some(DatabaseForeignKeyAction::Restrict)
            } else if str_is(s, "cascade") {
                Some(DatabaseForeignKeyAction::Cascade)
            } else if str_is(s, "set_null") {
                Some(DatabaseForeignKeyAction::SetNull)
            } else if str_is(s, "set_default") {
                Some(DatabaseForeignKeyAction::SetDefault)
            } else {
                None
            }
        },
        _ => None,
    }
}

proof fn lemma_decode_strings_fail(vs: Seq<JsonValueView>, i: int)
    requires
        0 <= i < vs.len(),
        !(vs[i] is Str),
    ensures
        decode_strings_spec(vs) is None,
    decreases vs.len(),
{
    if i < vs.len() - 1 {
        lemma_decode_strings_fail(vs.drop_last(), i);
    }
}

#[verifier::loop_isolation(false)]
fn decode_strings(elems: &Vec<JsonValue>) -> (r: Option<Vec<String>>)
    ensures
        match r {
            Some(ss) => decode_strings_spec(jv_seq_view(elems@)) == Some(
                ss@.map_values(|s: String| s@),
            ),
            None => decode_strings_spec(jv_seq_view(elems@)) is None,
        },
{
    let ghost vsv = jv_seq_view(elems@);
    proof {
        lemma_jv_seq_view_len(elems@);
    }
    let mut out: Vec<String> = Vec::new();
    let mut i: usize = 0;
    while i < elems.len()
        invariant
            i <= elems.len(),
            decode_strings_spec(vsv.take(i as int)) == Some(out@.map_values(|s: String| s@)),
        decreases elems.len() - i,
    {
        proof {
            lemma_jv_seq_view_index(elems@, i as int);
            assert(vsv.take(i + 1).drop_last() =~= vsv.take(i as int));
            assert(vsv.take(i + 1).last() == vsv[i as int]);
        }
        let ghost g = out@.map_values(|s: String| s@);
        match &elems[i] {
            JsonValue::Str(s) => {
                out.push(s.clone());
                proof {
                    assert(out@.map_values(|s: String| s@) =~= g.push(s@));
                }
            },
            _ => {
                proof {
                    lemma_decode_strings_fail(vsv, i as int);
                }
                return None;
            },
        }
        i += 1;
    }
    proof {
        assert(vsv.take(elems@.len() as int) =~= vsv);
    }
    Some(out)
}

/// Decodes one column record.
pub fn decode_column(v: &JsonValue) -> (r: Option<DatabaseColumn>)
    ensures
        match r {
            Some(c) => decode_column_spec(jv_view(*v)) == Some(c@),
            None => decode_column_spec(jv_view(*v)) is None,
        },
{
    match v {
        JsonValue::Object(fields) => {
            proof {
                lemma_jv_fields_view_len(fields@);
                if fields@.len() > 0 {
                    lemma_jv_fields_view_index(fields@, 0);
                }
                if fields@.len() > 1 {
                    lemma_jv_fields_view_index(fields@, 1);
                }
                if fields@.len() > 2 {
                    lemma_jv_fields_view_index(fields@, 2);
                }
            }
            if fields.len() != 3 {
                return None;
            }
            if !str_is(&fields[0].0, "name") {
                return None;
            }
            let name = match &fields[0].1 {
                JsonValue::Str(s) => s.clone(),
                _ => {
                    return None;
                },
            };
            if !str_is(&fields[1].0, "arity") {
                return None;
            }
            if !str_is(&fields[2].0, "tpe") {
                return None;
            }
            let arity = match decode_arity(&fields[1].1) {
                Some(a) => a,
                None => {
                    return None;
                },
            };
            let tpe = match decode_type(&fields[2].1) {
                Some(t) => t,
                None => {
                    return None;
                },
            };
            let r = DatabaseColumn { name, arity, tpe };
            proof {
                assert(decode_column_spec(jv_view(*v))->0 =~= r@);
            }
            Some(r)
        },
        _ => None,
    }
}

proof fn lemma_decode_columns_fail(vs: Seq<JsonValueView>, i: int)
    requires
        0 <= i < vs.len(),
        decode_column_spec(vs[i]) is None,
    ensures
        decode_columns_spec(vs) is None,
    decreases vs.len(),
{
    if i < vs.len() - 1 {
        lemma_decode_columns_fail(vs.drop_last(), i);
    }
}

#[verifier::loop_isolation(false)]
fn decode_columns(elems: &Vec<JsonValue>) -> (r: Option<Vec<DatabaseColumn>>)
    ensures
        match r {
            Some(cs) => decode_columns_spec(jv_seq_view(elems@)) == Some(
                cs@.map_values(|c: DatabaseColumn| c@),
            ),
            None => decode_columns_spec(jv_seq_view(elems@)) is None,
        },
{
    let ghost vsv = jv_seq_view(elems@);
    proof {
        lemma_jv_seq_view_len(elems@);
    }
    let mut out: Vec<DatabaseColumn> = Vec::new();
    let mut i: usize = 0;
    while i < elems.len()
        invariant
            i <= elems.len(),
            decode_columns_spec(vsv.take(i as int)) == Some(
                out@.map_values(|c: DatabaseColumn| c@),
            ),
        decreases elems.len() - i,
    {
        proof {
            lemma_jv_seq_view_index(elems@, i as int);
            assert(vsv.take(i + 1).drop_last() =~= vsv.take(i as int));
            assert(vsv.take(i + 1).last() == vsv[i as int]);
        }
        let ghost g = out@.map_values(|c: DatabaseColumn| c@);
        match decode_column(&elems[i]) {
            Some(c) => {
                out.push(c);
                proof {
                    assert(out@.map_values(|c: DatabaseColumn| c@) =~= g.push(
                        out@.last()@,
                    ));
                }
            },
            None => {
                proof {
                    lemma_decode_columns_fail(vsv, i as int);
                }
                return None;
            },
        }
        i += 1;
    }
    proof {
        assert(vsv.take(elems@.len() as int) =~= vsv);
    }
    Some(out)
}

/// Decodes one index record.
pub fn decode_index(v: &JsonValue) -> (r: Option<DatabaseIndex>)
    ensures
        match r {
            Some(ix) => decode_index_spec(jv_view(*v)) == Some(ix@),
            None => decode_index_spec(jv_view(*v)) is None,
        },
{
    match v {
        JsonValue::Object(fields) => {
            proof {
                lemma_jv_fields_view_len(fields@);
                if fields@.len() > 0 {
                    lemma_jv_fields_view_index(fields@, 0);
                }
                if fields@.len() > 1 {
                    lemma_jv_fields_view_index(fields@, 1);
                }
                if fields@.len() > 2 {
                    lemma_jv_fields_view_index(fields@, 2);
                }
            }
            if fields.len() != 3 {
                return None;
            }
            if !str_is(&fields[0].0, "name") {
                return None;
            }
            let name = match &fields[0].1 {
                JsonValue::Str(s) => s.clone(),
                _ => {
                    return None;
                },
            };
            if !str_is(&fields[1].0, "tpe") {
                return None;
            }
            if !str_is(&fields[2].0, "columns") {
                return None;
            }
            let tpe = match decode_index_type(&fields[1].1) {
                Some(t) => t,
                None => {
                    return None;
                },
            };
            let columns = match &fields[2].1 {
                JsonValue::Array(elems) => match decode_strings(elems) {
                    Some(ss) => ss,
                    None => {
                        return None;
                    },
                },
                _ => {
                    return None;
                },
            };
            let r = DatabaseIndex { name, tpe, columns };
            proof {
                assert(decode_index_spec(jv_view(*v))->0 =~= r@);
            }
            Some(r)
        },
        _ => None,
    }
}

proof fn lemma_decode_indexes_fail(vs: Seq<JsonValueView>, i: int)
    requires
        0 <= i < vs.len(),
        decode_index_spec(vs[i]) is None,
    ensures
        decode_indexes_spec(vs) is None,
    decreases vs.len(),
{
    if i < vs.len() - 1 {
        lemma_decode_indexes_fail(vs.drop_last(), i);
    }
}

#[verifier::loop_isolation(false)]
fn decode_indexes(elems: &Vec<JsonValue>) -> (r: Option<Vec<DatabaseIndex>>)
    ensures
        match r {
            Some(ixs) => decode_indexes_spec(jv_seq_view(elems@)) == Some(
                ixs@.map_values(|ix: DatabaseIndex| ix@),
            ),
            None => decode_indexes_spec(jv_seq_view(elems@)) is None,
        },
{
    let ghost vsv = jv_seq_view(elems@);
    proof {
        lemma_jv_seq_view_len(elems@);
    }
    let mut out: Vec<DatabaseIndex> = Vec::new();
    let mut i: usize = 0;
    while i < elems.len()
        invariant
            i <= elems.len(),
            decode_indexes_spec(vsv.take(i as int)) == Some(
                out@.map_values(|ix: DatabaseIndex| ix@),
            ),
        decreases elems.len() - i,
    {
        proof {
            lemma_jv_seq_view_index(elems@, i as int);
            assert(vsv.take(i + 1).drop_last() =~= vsv.take(i as int));
            assert(vsv.take(i + 1).last() == vsv[i as int]);
        }
        let ghost g = out@.map_values(|ix: DatabaseIndex| ix@);
        match decode_index(&elems[i]) {
            Some(ix) => {
                out.push(ix);
                proof {
                    assert(out@.map_values(|ix: DatabaseIndex| ix@) =~= g.push(
                        out@.last()@,
                    ));
                }
            },
            None => {
                proof {
                    lemma_decode_indexes_fail(vsv, i as int);
                }
                return None;
            },
        }
        i += 1;
    }
    proof {
        assert(vsv.take(elems@.len() as int) =~= vsv);
    }
    Some(out)
}

/// Decodes one table record.
pub fn decode_table(v: &JsonValue) -> (r: Option<DatabaseTable>)
    ensures
        match r {
            Some(t) => decode_table_spec(jv_view(*v)) == Some(t@),
            None => decode_table_spec(jv_view(*v)) is None,
        },
{
    match v {
        JsonValue::Object(fields) => {
            proof {
                lemma_jv_fields_view_len(fields@);
                if fields@.len() > 0 {
                    lemma_jv_fields_view_index(fields@, 0);
                }
                if fields@.len() > 1 {
                    lemma_jv_fields_view_index(fields@, 1);
                }
                if fields@.len() > 2 {
                    lemma_jv_fields_view_index(fields@, 2);
                }
            }
            if fields.len() != 3 {
                return None;
            }
            if !str_is(&fields[0].0, "name") {
                return None;
            }
            let name = match &fields[0].1 {
                JsonValue::Str(s) => s.clone(),
                _ => {
                    return None;
                },
            };
            if !str_is(&fields[1].0, "columns") {
                return None;
            }
            if !str_is(&fields[2].0, "indexes") {
                return None;
            }
            let columns = match &fields[1].1 {
                JsonValue::Array(elems) => match decode_columns(elems) {
                    Some(cs) => cs,
                    None => {
                        return None;
                    },
                },
                _ => {
                    return None;
                },
            };
            let indexes = match &fields[2].1 {
                JsonValue::Array(elems) => match decode_indexes(elems) {
                    Some(ixs) => ixs,
                    None => {
                        return None;
                    },
                },
                _ => {
                    return None;
                },
            };
            let r = DatabaseTable { name, columns, indexes };
            proof {
                assert(decode_table_spec(jv_view(*v))->0 =~= r@);
            }
            Some(r)
        },
        _ => None,
    }
}

proof fn lemma_decode_tables_fail(vs: Seq<JsonValueView>, i: int)
    requires
        0 <= i < vs.len(),
        decode_table_spec(vs[i]) is None,
    ensures
        decode_tables_spec(vs) is None,
    decreases vs.len(),
{
    if i < vs.len() - 1 {
        lemma_decode_tables_fail(vs.drop_last(), i);
    }
}

#[verifier::loop_isolation(false)]
fn decode_tables(elems: &Vec<JsonValue>) -> (r: Option<Vec<DatabaseTable>>)
    ensures
        match r {
            Some(ts) => decode_tables_spec(jv_seq_view(elems@)) == Some(
                ts@.map_values(|t: DatabaseTable| t@),
            ),
            None => decode_tables_spec(jv_seq_view(elems@)) is None,
        },
{
    let ghost vsv = jv_seq_view(elems@);
    proof {
        lemma_jv_seq_view_len(elems@);
    }
    let mut out: Vec<DatabaseTable> = Vec::new();
    let mut i: usize = 0;
    while i < elems.len()
        invariant
            i <= elems.len(),
            decode_tables_spec(vsv.take(i as int)) == Some(
                out@.map_values(|t: DatabaseTable| t@),
            ),
        decreases elems.len() - i,
    {
        proof {
            lemma_jv_seq_view_index(elems@, i as int);
            assert(vsv.take(i + 1).drop_last() =~= vsv.take(i as int));
            assert(vsv.take(i + 1).last() == vsv[i as int]);
        }
        let ghost g = out@.map_values(|t: DatabaseTable| t@);
        match decode_table(&elems[i]) {
            Some(t) => {
                out.push(t);
                proof {
                    assert(out@.map_values(|t: DatabaseTable| t@) =~= g.push(out@.last()@));
                }
            },
            None => {
                proof {
                    lemma_decode_tables_fail(vsv, i as int);
                }
                return None;
            },
        }
        i += 1;
    }
    proof {
        assert(vsv.take(elems@.len() as int) =~= vsv);
    }
    Some(out)
}

/// Decodes one foreign-key record.
pub fn decode_foreign_key(v: &JsonValue) -> (r: Option<DatabaseForeignKey>)
    ensures
        match r {
            Some(fk) => decode_fk_spec(jv_view(*v)) == Some(fk@),
            None => decode_fk_spec(jv_view(*v)) is None,
        },
{
    match v {
        JsonValue::Object(fields) => {
            proof {
                lemma_jv_fields_view_len(fields@);
                if fields@.len() > 0 {
                    lemma_jv_fields_view_index(fields@, 0);
                }
                if fields@.len() > 1 {
                    lemma_jv_fields_view_index(fields@, 1);
                }
                if fields@.len() > 2 {
                    lemma_jv_fields_view_index(fields@, 2);
                }
                if fields@.len() > 3 {
                    lemma_jv_fields_view_index(fields@, 3);
                }
                if fields@.len() > 4 {
                    lemma_jv_fields_view_index(fields@, 4);
                }
                if fields@.len() > 5 {
                    lemma_jv_fields_view_index(fields@, 5);
                }
            }
            if fields.len() != 6 {
                return None;
            }
            if !str_is(&fields[0].0, "name") {
                return None;
            }
            let name = match &fields[0].1 {
                JsonValue::Str(s) => s.clone(),
                _ => {
                    return None;
                },
            };
            if !str_is(&fields[1].0, "table_name") {
                return None;
            }
            let table_name = match &fields[1].1 {
                JsonValue::Str(s) => s.clone(),
                _ => {
                    return None;
                },
            };
            if !str_is(&fields[2].0, "referenced_table_name") {
                return None;
            }
            let referenced_table_name = match &fields[2].1 {
                JsonValue::Str(s) => s.clone(),
                _ => {
                    return None;
                },
            };
            if !str_is(&fields[3].0, "column_names") {
                return None;
            }
            if !str_is(&fields[4].0, "referenced_column_names") {
                return None;
            }
            if !str_is(&fields[5].0, "on_delete_action") {
                return None;
            }
            let column_names = match &fields[3].1 {
                JsonValue::Array(elems) => match decode_strings(elems) {
                    Some(ss) => ss,
                    None => {
                        return None;
                    },
                },
                _ => {
                    return None;
                },
            };
            let referenced_column_names = match &fields[4].1 {
                JsonValue::Array(elems) => match decode_strings(elems) {
                    Some(ss) => ss,
                    None => {
                        return None;
                    },
                },
                _ => {
                    return None;
                },
            };
            let on_delete_action = match decode_action(&fields[5].1) {
                Some(a) => a,
                None => {
                    return None;
                },
            };
            let r = DatabaseForeignKey {
                name,
                table_name,
                referenced_table_name,
                column_names,
                referenced_column_names,
                on_delete_action,
            };
            proof {
                assert(decode_fk_spec(jv_view(*v))->0 =~= r@);
            }
            Some(r)
        },
        _ => None,
    }
}

proof fn lemma_decode_fks_fail(vs: Seq<JsonValueView>, i: int)
    requires
        0 <= i < vs.len(),
        decode_fk_spec(vs[i]) is None,
    ensures
        decode_fks_spec(vs) is None,
    decreases vs.len(),
{
    if i < vs.len() - 1 {
        lemma_decode_fks_fail(vs.drop_last(), i);
    }
}

#[verifier::loop_isolation(false)]
fn decode_foreign_keys(elems: &Vec<JsonValue>) -> (r: Option<Vec<DatabaseForeignKey>>)
    ensures
        match r {
            Some(fks) => decode_fks_spec(jv_seq_view(elems@)) == Some(
                fks@.map_values(|fk: DatabaseForeignKey| fk@),
            ),
            None => decode_fks_spec(jv_seq_view(elems@)) is None,
        },
{
    let ghost vsv = jv_seq_view(elems@);
    proof {
        lemma_jv_seq_view_len(elems@);
    }
    let mut out: Vec<DatabaseForeignKey> = Vec::new();
    let mut i: usize = 0;
    while i < elems.len()
        invariant
            i <= elems.len(),
            decode_fks_spec(vsv.take(i as int)) == Some(
                out@.map_values(|fk: DatabaseForeignKey| fk@),
            ),
        decreases elems.len() - i,
    {
        proof {
            lemma_jv_seq_view_index(elems@, i as int);
            assert(vsv.take(i + 1).drop_last() =~= vsv.take(i as int));
            assert(vsv.take(i + 1).last() == vsv[i as int]);
        }
        let ghost g = out@.map_values(|fk: DatabaseForeignKey| fk@);
        match decode_foreign_key(&elems[i]) {
            Some(fk) => {
                out.push(fk);
                proof {
                    assert(out@.map_values(|fk: DatabaseForeignKey| fk@) =~= g.push(
                        out@.last()@,
                    ));
                }
            },
            None => {
                proof {
                    lemma_decode_fks_fail(vsv, i as int);
                }
                return None;
            },
        }
        i += 1;
    }
    proof {
        assert(vsv.take(elems@.len() as int) =~= vsv);
    }
    Some(out)
}

/// Decodes a whole tagged schema document; `None` for anything the encoder
/// does not produce.
pub fn decode_schema(v: &JsonValue) -> (r: Option<DatabaseSchema>)
    ensures
        match r {
            Some(s) => decode_schema_spec(jv_view(*v)) == Some(s@),
            None => decode_schema_spec(jv_view(*v)) is None,
        },
{
    match v {
        JsonValue::Object(fields) => {
            proof {
                lemma_jv_fields_view_len(fields@);
                if fields@.len() > 0 {
                    lemma_jv_fields_view_index(fields@, 0);
                }
                if fields@.len() > 1 {
                    lemma_jv_fields_view_index(fields@, 1);
                }
            }
            if fields.len() != 2 {
                return None;
            }
            if !str_is(&fields[0].0, "tables") {
                return None;
            }
            if !str_is(&fields[1].0, "foreign_keys") {
                return None;
            }
            let tables = match &fields[0].1 {
                JsonValue::Array(elems) => match decode_tables(elems) {
                    Some(ts) => ts,
                    None => {
                        return None;
                    },
                },
                _ => {
                    return None;
                },
            };
            let foreign_keys = match &fields[1].1 {
                JsonValue::Array(elems) => match decode_foreign_keys(elems) {
                    Some(fks) => fks,
                    None => {
                        return None;
                    },
                },
                _ => {
                    return None;
                },
            };
            let r = DatabaseSchema { tables, foreign_keys };
            proof {
                assert(decode_schema_spec(jv_view(*v))->0 =~= r@);
            }
            Some(r)
        },
        _ => None,
    }
}

} // verus!


