use sqlite_merge::batch::{batch_count, seed_counter};
use sqlite_merge::schema::{classify_columns, ColumnDescriptor, KeyClass, PrimaryKeyStrategy};
use sqlite_merge::sql::{
    check_identifier, count_sql, insert_sql, last_row_sql, select_batch_sql, table_info_sql,
};
use sqlite_merge::transfer::build_insert_params;
use sqlite_merge::values::SqlValue;

fn column(name: &str, decl_type: &str, pk: i64) -> ColumnDescriptor {
    ColumnDescriptor {
        cid: 0,
        name: name.to_owned(),
        decl_type: decl_type.to_owned(),
        notnull: 0,
        has_default: false,
        pk,
    }
}

#[test]
fn batch_count_empty_table_needs_no_batch() {
    assert_eq!(batch_count(0, 500), 0);
    assert_eq!(batch_count(0, 1), 0);
}

#[test]
fn batch_count_partial_window_is_one_batch() {
    assert_eq!(batch_count(1, 500), 1);
    assert_eq!(batch_count(499, 500), 1);
    assert_eq!(batch_count(500, 500), 1);
}

#[test]
fn batch_count_is_the_exact_ceiling() {
    assert_eq!(batch_count(501, 500), 2);
    assert_eq!(batch_count(1000, 500), 2);
    assert_eq!(batch_count(1001, 500), 3);
    assert_eq!(batch_count(5, 2), 3);
    assert_eq!(batch_count(4, 2), 2);
    assert_eq!(batch_count(7, 1), 7);
}

#[test]
fn classify_no_flagged_column() {
    let cols = vec![column("a", "TEXT", 0), column("b", "INTEGER", 0)];
    assert_eq!(classify_columns(&cols), KeyClass::NoKey);
}

#[test]
fn classify_single_integer_key() {
    let cols = vec![column("id", "INTEGER", 1), column("name", "TEXT", 0)];
    assert_eq!(classify_columns(&cols), KeyClass::IntegerKey { column_index: 0 });
    let cols = vec![column("name", "TEXT", 0), column("id", "INT", 1)];
    assert_eq!(classify_columns(&cols), KeyClass::IntegerKey { column_index: 1 });
}

#[test]
fn classify_type_match_is_case_sensitive() {
    let cols = vec![column("id", "integer", 1)];
    assert_eq!(classify_columns(&cols), KeyClass::NonIntegerKey { column_index: 0 });
    let cols = vec![column("id", "TEXT", 1), column("v", "INTEGER", 0)];
    assert_eq!(classify_columns(&cols), KeyClass::NonIntegerKey { column_index: 0 });
}

#[test]
fn classify_composite_key() {
    let cols = vec![column("a", "INTEGER", 1), column("b", "INTEGER", 2)];
    assert_eq!(classify_columns(&cols), KeyClass::Composite);
}

#[test]
fn seed_counter_empty_table_seeds_zero() {
    assert_eq!(seed_counter(0, 99), 0);
    assert_eq!(seed_counter(-1, 99), 0);
    assert_eq!(seed_counter(3, 42), 42);
}

#[test]
fn identifier_check_is_exact() {
    assert!(check_identifier("t"));
    assert!(check_identifier("my_table_2"));
    assert!(check_identifier("T0_"));
    assert!(!check_identifier(""));
    assert!(!check_identifier("strange name"));
    assert!(!check_identifier("x WHERE ?1 = ?1 OR ?2 = ?2 --"));
    assert!(!check_identifier("t;drop"));
    assert!(!check_identifier("t\"quoted\""));
}

#[test]
fn statement_texts_are_exact() {
    assert_eq!(count_sql("t"), "SELECT COUNT(*) FROM t");
    assert_eq!(table_info_sql("t"), "PRAGMA table_info(t)");
    assert_eq!(last_row_sql("t"), "SELECT * FROM t LIMIT 1 OFFSET ?1");
    assert_eq!(select_batch_sql("t"), "SELECT * FROM t LIMIT ?1 OFFSET ?2");
    assert_eq!(insert_sql("t", 1, 1), "INSERT INTO t VALUES (?)");
    assert_eq!(insert_sql("t", 3, 1), "INSERT INTO t VALUES (?,?,?)");
    assert_eq!(insert_sql("t", 2, 3), "INSERT INTO t VALUES (?,?),(?,?),(?,?)");
}

#[test]
fn build_params_without_key_passes_everything_through() {
    let flat = vec![
        SqlValue::Integer(7),
        SqlValue::Text("a".to_owned()),
        SqlValue::Null,
        SqlValue::Blob(vec![1, 2]),
    ];
    let mut strategy = PrimaryKeyStrategy::NoPrimaryKey;
    let out = build_insert_params(flat, &mut strategy, 2, 2);
    assert_eq!(out.len(), 4);
    assert_eq!(out[0].as_integer(), Some(7));
    assert_eq!(out[1].as_text().map(|s| s.as_str()), Some("a"));
    assert!(out[2].is_null());
    assert!(matches!(&out[3], SqlValue::Blob(b) if b == &vec![1u8, 2u8]));
    assert!(matches!(strategy, PrimaryKeyStrategy::NoPrimaryKey));
}

#[test]
fn build_params_pass_through_keeps_key_column() {
    let flat = vec![SqlValue::Text("k1".to_owned()), SqlValue::Integer(5)];
    let mut strategy = PrimaryKeyStrategy::PassThrough { column_index: 0 };
    let out = build_insert_params(flat, &mut strategy, 2, 1);
    assert_eq!(out[0].as_text().map(|s| s.as_str()), Some("k1"));
    assert_eq!(out[1].as_integer(), Some(5));
    assert!(matches!(strategy, PrimaryKeyStrategy::PassThrough { column_index: 0 }));
}

#[test]
fn build_params_rewrites_only_the_key_column() {
    // Two rows of (id, name), key column 0, counter standing at 2.
    let flat = vec![
        SqlValue::Integer(1),
        SqlValue::Text("x".to_owned()),
        SqlValue::Integer(2),
        SqlValue::Text("y".to_owned()),
    ];
    let mut strategy = PrimaryKeyStrategy::IntegerSequence { column_index: 0, next_value: 2 };
    let out = build_insert_params(flat, &mut strategy, 2, 2);
    assert_eq!(out[0].as_integer(), Some(3));
    assert_eq!(out[1].as_text().map(|s| s.as_str()), Some("x"));
    assert_eq!(out[2].as_integer(), Some(4));
    assert_eq!(out[3].as_text().map(|s| s.as_str()), Some("y"));
    match strategy {
        PrimaryKeyStrategy::IntegerSequence { column_index, next_value } => {
            assert_eq!(column_index, 0);
            assert_eq!(next_value, 4);
        }
        _ => panic!("strategy changed shape"),
    }
}

#[test]
fn build_params_first_key_after_empty_seed_is_one() {
    let flat = vec![SqlValue::Integer(9)];
    let mut strategy = PrimaryKeyStrategy::IntegerSequence { column_index: 0, next_value: 0 };
    let out = build_insert_params(flat, &mut strategy, 1, 1);
    assert_eq!(out[0].as_integer(), Some(1));
}
