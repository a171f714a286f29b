//! The store text format: exact encodings, the write-then-read round trip,
//! and the inputs on which reading fails.

use pet_cli::generic_tui::Error;
use pet_cli::pet::Pet;
use pet_cli::store::{store_decode, store_encode};

fn pet(id: usize, name: &str, category: &str, age: usize, created_at: u64) -> Pet {
    Pet { id, name: name.to_owned(), category: category.to_owned(), age, created_at }
}

#[test]
fn encode_empty_collection() {
    let pets: Vec<Pet> = Vec::new();
    assert_eq!(store_encode(&pets), "[]");
}

#[test]
fn encode_one_record_exactly() {
    let pets = vec![pet(1, "Rex", "cats", 3, 0)];
    assert_eq!(
        store_encode(&pets),
        "[{\"id\":1,\"name\":\"Rex\",\"category\":\"cats\",\"age\":3,\"created_at\":0}]"
    );
}

#[test]
fn encode_two_records_exactly() {
    let pets = vec![pet(12, "Rex", "cats", 3, 7), pet(990, "Mia", "dogs", 14, 1600000000)];
    assert_eq!(
        store_encode(&pets),
        "[{\"id\":12,\"name\":\"Rex\",\"category\":\"cats\",\"age\":3,\"created_at\":7},\
         {\"id\":990,\"name\":\"Mia\",\"category\":\"dogs\",\"age\":14,\"created_at\":1600000000}]"
            .replace(" ", "")
    );
}

#[test]
fn round_trip_preserves_content_and_order() {
    let pets = vec![
        pet(1, "Rex", "cats", 3, 0),
        pet(2, "Mia", "dogs", 14, 1600000000),
        pet(9999998, "A1b2C3d4E5", "cats", 1, u64::MAX),
    ];
    let text = store_encode(&pets);
    let back = store_decode(&text).expect("the encoder's output parses");
    assert_eq!(back, pets);
}

#[test]
fn round_trip_empty_collection() {
    let pets: Vec<Pet> = Vec::new();
    let text = store_encode(&pets);
    assert_eq!(store_decode(&text).expect("the encoder's output parses"), pets);
}

#[test]
fn round_trip_unicode_name() {
    let pets = vec![pet(3, "Jos\u{e9}", "cats", 2, 5)];
    let text = store_encode(&pets);
    assert_eq!(store_decode(&text).expect("the encoder's output parses"), pets);
}

#[test]
fn round_trip_empty_name() {
    let pets = vec![pet(5, "", "cats", 2, 10)];
    let text = store_encode(&pets);
    assert_eq!(store_decode(&text).expect("the encoder's output parses"), pets);
}

#[test]
fn decode_one_record() {
    let text = "[{\"id\":1,\"name\":\"Rex\",\"category\":\"cats\",\"age\":3,\"created_at\":0}]";
    let pets = store_decode(text).expect("well-formed store text parses");
    assert_eq!(pets, vec![pet(1, "Rex", "cats", 3, 0)]);
}

#[test]
fn decode_rejects_malformed_text() {
    assert_eq!(store_decode(""), Err(Error::ParseDBError));
    assert_eq!(store_decode("not json"), Err(Error::ParseDBError));
    assert_eq!(store_decode("["), Err(Error::ParseDBError));
    assert_eq!(store_decode("[]x"), Err(Error::ParseDBError));
    assert_eq!(store_decode("[{\"id\":1}]"), Err(Error::ParseDBError));
    assert_eq!(
        store_decode("[{\"id\":1,\"name\":\"Rex\",\"category\":\"cats\",\"age\":3,\"created_at\":0}"),
        Err(Error::ParseDBError)
    );
    assert_eq!(
        store_decode("[{\"id\":1,\"name\":\"Rex\",\"category\":\"cats\",\"age\":3,\"created_at\":0},]"),
        Err(Error::ParseDBError)
    );
}

#[test]
fn decode_rejects_numbers_beyond_bounds() {
    let text = "[{\"id\":99999999999999999999999999,\"name\":\"Rex\",\"category\":\"cats\",\
                \"age\":3,\"created_at\":0}]"
        .replace(" ", "");
    assert_eq!(store_decode(&text), Err(Error::ParseDBError));
}

#[test]
fn decode_rejects_unterminated_string() {
    let text = "[{\"id\":1,\"name\":\"Rex";
    assert_eq!(store_decode(text), Err(Error::ParseDBError));
}
