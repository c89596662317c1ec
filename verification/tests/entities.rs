use todo_backend::entities::{ChangesetError, Todo, TodoChangeset};

#[test]
fn changeset_with_description_is_valid() {
    let c = TodoChangeset { description: "buy milk".to_string() };
    assert!(c.validate().is_ok());
    let one = TodoChangeset { description: "x".to_string() };
    assert!(one.validate().is_ok());
    let multibyte = TodoChangeset { description: "é".to_string() };
    assert!(multibyte.validate().is_ok());
}

#[test]
fn changeset_with_empty_description_is_refused() {
    let c = TodoChangeset { description: String::new() };
    let err = c.validate().unwrap_err();
    assert_eq!(err, ChangesetError::DescriptionTooShort);
    assert_eq!(err.field(), "description");
    assert_eq!(err.message(), "Description must be at least 1 character long");
}

#[test]
fn todo_holds_its_fields() {
    let t = Todo { id: 7, description: "walk".to_string() };
    assert_eq!(t.id, 7);
    assert_eq!(t.description, "walk");
}
