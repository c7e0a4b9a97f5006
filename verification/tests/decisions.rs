use bookstore::handlers::{
    create_book_response, create_duplicate_check, delete_book_response, get_book_response,
    get_books_response, greeting, parse_book_id, update_book_response, update_precheck,
    DeleteOutcome, FindOutcome, InsertOutcome, ListOutcome, UpdateOutcome,
};
use bookstore::models::{Book, NewBook};
use bookstore::oid::BookId;

fn sample_book() -> Book {
    Book {
        id: BookId::parse_str("53e37d08776f724e42000000"),
        name: "Dune".to_string(),
        author: "Herbert".to_string(),
        year: 1965,
    }
}

#[test]
fn greeting_is_fixed() {
    assert_eq!(greeting(), "Hello, world!");
}

#[test]
fn list_decision_converts_books_and_maps_failure_to_500() {
    let (status, body) = get_books_response(ListOutcome::Listed(vec![sample_book()]))
        .expect("a listed collection is answered 200");
    assert_eq!(status, 200);
    assert_eq!(body.len(), 1);
    assert_eq!(body[0].id, "53e37d08776f724e42000000");
    assert_eq!(body[0].name, "Dune");
    let (status, message) = get_books_response(ListOutcome::Failed("cursor broke".to_string()))
        .expect_err("a failed read is answered 500");
    assert_eq!((status, message.as_str()), (500, "cursor broke"));
}

#[test]
fn list_decision_converts_missing_id_to_empty_string() {
    let mut book = sample_book();
    book.id = None;
    let (_, body) = get_books_response(ListOutcome::Listed(vec![book])).expect("answered 200");
    assert_eq!(body[0].id, "");
}

#[test]
fn duplicate_check_decides_conflict_miss_and_failure() {
    let (status, message) =
        create_duplicate_check(FindOutcome::Found(sample_book())).expect_err("conflict");
    assert_eq!((status, message.as_str()), (409, "Book name already exists"));
    assert!(create_duplicate_check(FindOutcome::Missing).is_ok());
    let (status, message) =
        create_duplicate_check(FindOutcome::Failed("down".to_string())).expect_err("failure");
    assert_eq!((status, message.as_str()), (500, "down"));
}

#[test]
fn create_decision_renders_the_assigned_identifier() {
    let id = BookId::parse_str("53e37d08776f724e42000000").unwrap();
    let (status, body) = create_book_response(InsertOutcome::Inserted(id)).expect("created");
    assert_eq!((status, body.as_str()), (201, "53e37d08776f724e42000000"));
    let (status, body) =
        create_book_response(InsertOutcome::InsertedOther("7".to_string())).expect("created");
    assert_eq!((status, body.as_str()), (201, "7"));
    let (status, message) =
        create_book_response(InsertOutcome::Failed("full".to_string())).expect_err("failure");
    assert_eq!((status, message.as_str()), (500, "full"));
}

#[test]
fn parse_decision_answers_400_before_any_store_call() {
    let (status, message) = parse_book_id("not-an-id").expect_err("malformed");
    assert_eq!((status, message.as_str()), (400, "Invalid ID"));
    let id = parse_book_id("53e37d08776f724e42000000").expect("well formed");
    assert_eq!(id.to_hex(), "53e37d08776f724e42000000");
}

#[test]
fn get_decision_answers_200_404_500() {
    let (status, dto) = get_book_response(FindOutcome::Found(sample_book())).expect("found");
    assert_eq!(status, 200);
    assert_eq!(dto.name, "Dune");
    assert_eq!(dto.year, 1965);
    let (status, message) = get_book_response(FindOutcome::Missing).expect_err("missing");
    assert_eq!((status, message.as_str()), (404, "Book not found"));
    let (status, message) =
        get_book_response(FindOutcome::Failed("down".to_string())).expect_err("failure");
    assert_eq!((status, message.as_str()), (500, "down"));
}

#[test]
fn update_precheck_answers_404_and_500() {
    assert!(update_precheck(FindOutcome::Found(sample_book())).is_ok());
    let (status, message) = update_precheck(FindOutcome::Missing).expect_err("missing");
    assert_eq!((status, message.as_str()), (404, "Book not found"));
    let (status, message) =
        update_precheck(FindOutcome::Failed("down".to_string())).expect_err("failure");
    assert_eq!((status, message.as_str()), (500, "down"));
}

#[test]
fn update_decision_goes_by_matched_count() {
    let (status, body) = update_book_response(UpdateOutcome::Matched(1)).expect("matched");
    assert_eq!((status, body.as_str()), (200, "Updated"));
    let (status, message) = update_book_response(UpdateOutcome::Matched(0)).expect_err("gone");
    assert_eq!((status, message.as_str()), (404, "Book not found"));
    let (status, message) =
        update_book_response(UpdateOutcome::Failed("down".to_string())).expect_err("failure");
    assert_eq!((status, message.as_str()), (500, "down"));
}

#[test]
fn delete_decision_goes_by_deleted_count() {
    let (status, body) = delete_book_response(DeleteOutcome::Removed(1)).expect("removed");
    assert_eq!((status, body.as_str()), (200, "Deleted"));
    let (status, message) = delete_book_response(DeleteOutcome::Removed(0)).expect_err("gone");
    assert_eq!((status, message.as_str()), (404, "Book not found"));
    let (status, message) =
        delete_book_response(DeleteOutcome::Failed("down".to_string())).expect_err("failure");
    assert_eq!((status, message.as_str()), (500, "down"));
}

#[test]
fn dto_conversion_keeps_fields_and_renders_id() {
    let dto = bookstore::models::BookDto::from(sample_book());
    assert_eq!(dto.id, "53e37d08776f724e42000000");
    assert_eq!(dto.name, "Dune");
    assert_eq!(dto.author, "Herbert");
    assert_eq!(dto.year, 1965);
}
