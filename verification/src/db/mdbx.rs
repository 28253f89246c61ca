//! How entities, which are pairs of strings, are laid out as rows of the
//! entity table, and how rows are read back as entities.
//!
//! Writing stores the UTF-8 bytes of the key and the value; reading decodes
//! the bytes as UTF-8, replacing invalid sequences. The database handle
//! itself, with its transactions and cursors, stays with the program.

use crate::db::entity_views;
use crate::db::reth_table::{EntityKey, EntityValue};
use vstd::prelude::*;
use vstd::slice::slice_to_vec;
use vstd::string::StringSliceAdditionalSpecFns;
use vstd::utf8::*;

verus! {

/// What `String::from_utf8_lossy` makes of a byte string.
pub uninterp spec fn lossy_utf8_decoding(bytes: Seq<u8>) -> Seq<char>;

/// `String::from_utf8_lossy`, taken as an owned string. Its documentation
/// says that a byte slice of valid UTF-8 gives back the string it encodes,
/// and that invalid sequences are replaced by U+FFFD. The contract claims
/// the first fact and names the result on every input; how invalid
/// sequences are replaced is left unsaid.
#[verifier::external_body]
fn string_from_utf8_lossy(bytes: &[u8]) -> (text: String)
    ensures
        text@ == lossy_utf8_decoding(bytes@),
        valid_utf8(bytes@) ==> text@ == decode_utf8(bytes@),
{
    String::from_utf8_lossy(bytes).into_owned()
}

/// The views of a sequence of rows.
pub open spec fn row_views(rows: Seq<(EntityKey, EntityValue)>) -> Seq<(Seq<u8>, Seq<u8>)> {
    rows.map_values(|r: (EntityKey, EntityValue)| (r.0@, r.1@))
}

/// The row under which an entity is stored: the UTF-8 bytes of its key and
/// of its value.
pub open spec fn row_of_entity(entity: (Seq<char>, Seq<char>)) -> (Seq<u8>, Seq<u8>) {
    (encode_utf8(entity.0), encode_utf8(entity.1))
}

/// The text read back from stored bytes: the string that the bytes encode
/// when they are valid UTF-8, and otherwise what lossy decoding makes of
/// them.
pub open spec fn text_of_bytes(bytes: Seq<u8>) -> Seq<char> {
    if valid_utf8(bytes) {
        decode_utf8(bytes)
    } else {
        lossy_utf8_decoding(bytes)
    }
}

/// The entity read back from a row.
pub open spec fn entity_of_row(row: (Seq<u8>, Seq<u8>)) -> (Seq<char>, Seq<char>) {
    (text_of_bytes(row.0), text_of_bytes(row.1))
}

/// The rows written for a sequence of entities, in order.
pub open spec fn rows_of_entities(entities: Seq<(Seq<char>, Seq<char>)>) -> Seq<(Seq<u8>, Seq<u8>)> {
    entities.map_values(|e: (Seq<char>, Seq<char>)| row_of_entity(e))
}

/// The entities read back from a sequence of rows, in order.
pub open spec fn entities_of_rows(rows: Seq<(Seq<u8>, Seq<u8>)>) -> Seq<(Seq<char>, Seq<char>)> {
    rows.map_values(|r: (Seq<u8>, Seq<u8>)| entity_of_row(r))
}

/// The row under which the entity `(key, value)` is stored.
pub fn entity_to_row(key: &str, value: &str) -> (row: (EntityKey, EntityValue))
    ensures
        (row.0@, row.1@) == row_of_entity((key@, value@)),
        row.0@ == key.spec_bytes(),
        row.1@ == value.spec_bytes(),
        row.0@ == encode_utf8(key@),
        row.1@ == encode_utf8(value@),
{
    (EntityKey(slice_to_vec(key.as_bytes())), EntityValue(slice_to_vec(value.as_bytes())))
}

/// The entity read back from the row `(key, value)`.
pub fn row_to_entity(key: &EntityKey, value: &EntityValue) -> (entity: (String, String))
    ensures
        (entity.0@, entity.1@) == entity_of_row((key@, value@)),
        entity.0@ == lossy_utf8_decoding(key@),
        entity.1@ == lossy_utf8_decoding(value@),
        valid_utf8(key@) ==> entity.0@ == decode_utf8(key@),
        valid_utf8(value@) ==> entity.1@ == decode_utf8(value@),
        encode_utf8(entity.0@) == key@ <== valid_utf8(key@),
        encode_utf8(entity.1@) == value@ <== valid_utf8(value@),
{
    proof {
        if valid_utf8(key@) {
            decode_utf8_encode_utf8(key@);
        }
        if valid_utf8(value@) {
            decode_utf8_encode_utf8(value@);
        }
    }
    (string_from_utf8_lossy(key.as_ref()), string_from_utf8_lossy(value.as_ref()))
}

/// The rows written for `entities`, one per entity and in the same order.
pub fn rows_from_entities(entities: &[(String, String)]) -> (rows: Vec<(EntityKey, EntityValue)>)
    ensures
        rows@.len() == entities@.len(),
        row_views(rows@) == rows_of_entities(entity_views(entities@)),
        forall|i: int|
            0 <= i < entities@.len() ==> (#[trigger] rows@[i]).0@ == encode_utf8(entities@[i].0@)
                && rows@[i].1@ == encode_utf8(entities@[i].1@),
{
    let mut rows: Vec<(EntityKey, EntityValue)> = Vec::new();
    let mut i: usize = 0;
    while i < entities.len()
        invariant
            i <= entities@.len(),
            rows@.len() == i,
            forall|j: int|
                0 <= j < i ==> (#[trigger] rows@[j].0@, rows@[j].1@) == row_of_entity(
                    (entities@[j].0@, entities@[j].1@),
                ),
            forall|j: int|
                0 <= j < i ==> (#[trigger] rows@[j]).0@ == encode_utf8(entities@[j].0@)
                    && rows@[j].1@ == encode_utf8(entities@[j].1@),
        decreases entities@.len() - i,
    {
        let entity = &entities[i];
        let row = entity_to_row(entity.0.as_str(), entity.1.as_str());
        rows.push(row);
        i = i + 1;
    }
    assert(row_views(rows@) =~= rows_of_entities(entity_views(entities@)));
    rows
}

/// The entities read back from `rows`, one per row and in the same order.
pub fn entities_from_rows(rows: &[(EntityKey, EntityValue)]) -> (entities: Vec<(String, String)>)
    ensures
        entities@.len() == rows@.len(),
        entity_views(entities@) == entities_of_rows(row_views(rows@)),
        forall|i: int|
            0 <= i < rows@.len() ==> (valid_utf8(rows@[i].0@) ==> (#[trigger] entities@[i]).0@
                == decode_utf8(rows@[i].0@)) && (valid_utf8(rows@[i].1@) ==> entities@[i].1@
                == decode_utf8(rows@[i].1@)),
{
    let mut entities: Vec<(String, String)> = Vec::new();
    let mut i: usize = 0;
    while i < rows.len()
        invariant
            i <= rows@.len(),
            entities@.len() == i,
            forall|j: int|
                0 <= j < i ==> (#[trigger] entities@[j].0@, entities@[j].1@) == entity_of_row(
                    (rows@[j].0@, rows@[j].1@),
                ),
            forall|j: int|
                0 <= j < i ==> (valid_utf8(rows@[j].0@) ==> (#[trigger] entities@[j]).0@
                    == decode_utf8(rows@[j].0@)) && (valid_utf8(rows@[j].1@) ==> entities@[j].1@
                    == decode_utf8(rows@[j].1@)),
        decreases rows@.len() - i,
    {
        let row = &rows[i];
        let entity = row_to_entity(&row.0, &row.1);
        entities.push(entity);
        i = i + 1;
    }
    assert(entity_views(entities@) =~= entities_of_rows(row_views(rows@)));
    entities
}

/// A row holds the UTF-8 bytes of the entity's key and of its value, each
/// as it is and in that place; a row of valid UTF-8 is read back as the
/// text its bytes encode, whose UTF-8 bytes are the row's bytes again.
pub proof fn lemma_row_layout(entity: (Seq<char>, Seq<char>), row: (Seq<u8>, Seq<u8>))
    ensures
        row_of_entity(entity).0 == encode_utf8(entity.0),
        row_of_entity(entity).1 == encode_utf8(entity.1),
        valid_utf8(row.0) ==> entity_of_row(row).0 == decode_utf8(row.0)
            && encode_utf8(entity_of_row(row).0) == row.0,
        valid_utf8(row.1) ==> entity_of_row(row).1 == decode_utf8(row.1)
            && encode_utf8(entity_of_row(row).1) == row.1,
{
    if valid_utf8(row.0) {
        decode_utf8_encode_utf8(row.0);
    }
    if valid_utf8(row.1) {
        decode_utf8_encode_utf8(row.1);
    }
}

/// An entity read back from the row it was stored under is the entity
/// that was stored.
pub proof fn lemma_entity_row_roundtrip(entity: (Seq<char>, Seq<char>))
    ensures
        entity_of_row(row_of_entity(entity)) == entity,
{
    broadcast use encode_utf8_valid_utf8, encode_utf8_decode_utf8;

}

/// Reading back the rows written for a sequence of entities gives the same
/// entities in the same order.
pub proof fn lemma_entities_roundtrip(entities: Seq<(Seq<char>, Seq<char>)>)
    ensures
        entities_of_rows(rows_of_entities(entities)) == entities,
{
    assert forall|i: int| 0 <= i < entities.len() implies #[trigger] entities_of_rows(
        rows_of_entities(entities),
    )[i] == entities[i] by {
        lemma_entity_row_roundtrip(entities[i]);
    }
    assert(entities_of_rows(rows_of_entities(entities)) =~= entities);
}

} // verus!
