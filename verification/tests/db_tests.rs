use std::cmp::Ordering;
use reth_custom_db::db::mdbx::{entities_from_rows, entity_to_row, row_to_entity, rows_from_entities};
use reth_custom_db::db::{DbType, EntityKey, EntityTable, EntityTableInfo, EntityValue};

#[test]
fn db_type_names() {
    assert_eq!(DbType::Sqlite.to_string(), "sqlite");
    assert_eq!(DbType::Mdbx.to_string(), "mdbx");
}

#[test]
fn entity_table_layout() {
    assert_eq!(EntityTable::NAME, "EntityTable");
    assert!(!EntityTable::DUPSORT);
    assert_eq!(EntityTableInfo.name(), "EntityTable");
    assert!(!EntityTableInfo.is_dupsort());
}

#[test]
fn key_codec_roundtrip() {
    let key = EntityKey(vec![1, 2, 255]);
    assert_eq!(key.as_ref(), &[1, 2, 255]);
    let bytes = key.clone().encode();
    assert_eq!(bytes, vec![1, 2, 255]);
    assert_eq!(EntityKey::decode(&bytes), key);
    assert_eq!(key.into_vec(), vec![1, 2, 255]);
    assert_eq!(EntityKey::decode(&[]), EntityKey(Vec::new()));
}

#[test]
fn keys_order_as_byte_strings() {
    assert!(EntityKey(vec![1]) < EntityKey(vec![1, 0]));
    assert!(EntityKey(vec![1, 9]) < EntityKey(vec![2]));
    assert!(EntityKey(b"k1".to_vec()) < EntityKey(b"k2".to_vec()));
}

#[test]
fn value_codec_roundtrip() {
    let value = EntityValue(b"v1".to_vec());
    assert_eq!(value.as_ref(), b"v1");
    assert_eq!(value.uncompressable_ref(), Some(&b"v1"[..]));
    let bytes = value.clone().compress();
    assert_eq!(bytes, b"v1".to_vec());
    assert_eq!(EntityValue::decompress(&bytes), value);
    assert_eq!(EntityValue::decompress_owned(bytes), value);
}

#[test]
fn compress_to_buf_appends_the_value() {
    let value = EntityValue(vec![7, 8]);
    let mut buf = vec![1, 2, 3];
    value.compress_to_buf(&mut buf);
    assert_eq!(buf, vec![1, 2, 3, 7, 8]);
    EntityValue(Vec::new()).compress_to_buf(&mut buf);
    assert_eq!(buf, vec![1, 2, 3, 7, 8]);
}

#[test]
fn entity_is_stored_as_utf8() {
    let (key, value) = entity_to_row("k\u{e9}", "v1");
    assert_eq!(key, EntityKey(vec![b'k', 0xc3, 0xa9]));
    assert_eq!(value, EntityValue(b"v1".to_vec()));
}

#[test]
fn row_is_read_back_as_text() {
    let entity = row_to_entity(&EntityKey(vec![b'k', 0xc3, 0xa9]), &EntityValue(b"v1".to_vec()));
    assert_eq!(entity, ("k\u{e9}".to_string(), "v1".to_string()));
}

#[test]
fn invalid_utf8_is_read_back_with_replacement_characters() {
    let entity = row_to_entity(&EntityKey(vec![b'a', 0xff]), &EntityValue(vec![0xc3]));
    assert_eq!(entity, ("a\u{fffd}".to_string(), "\u{fffd}".to_string()));
}

#[test]
fn entities_written_are_read_back_in_order() {
    let entities = vec![
        ("k1".to_string(), "v1".to_string()),
        ("k2".to_string(), "v2".to_string()),
        ("\u{1F600}".to_string(), String::new()),
    ];
    let rows = rows_from_entities(&entities);
    assert_eq!(rows.len(), 3);
    assert_eq!(rows[0], (EntityKey(b"k1".to_vec()), EntityValue(b"v1".to_vec())));
    assert_eq!(rows[2].0, EntityKey(vec![0xf0, 0x9f, 0x98, 0x80]));
    assert_eq!(entities_from_rows(&rows), entities);
    assert_eq!(entities_from_rows(&[]), Vec::new());
}

#[test]
fn key_order_matches_stored_byte_order() {
    let keys: Vec<Vec<u8>> = vec![vec![], vec![0], vec![1], vec![1, 0], vec![1, 255], vec![2], b"k1".to_vec(), b"k2".to_vec()];
    for a in &keys {
        for b in &keys {
            let ka = EntityKey(a.clone());
            let kb = EntityKey(b.clone());
            let expected = ka.clone().encode().cmp(&kb.clone().encode());
            assert_eq!(ka.partial_cmp(&kb), Some(expected));
            assert_eq!(ka.cmp(&kb), expected);
            assert_eq!(ka.cmp(&kb) == Ordering::Equal, a == b);
        }
    }
}
