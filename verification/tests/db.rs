use std::borrow::Cow;

use todo_backend::db::{map_constraint_error, unique_constraint_error, unique_constraint_field, DbError, ResultExt};

#[derive(Debug)]
struct FakeDbError {
    code: Option<String>,
    message: String,
}

impl std::fmt::Display for FakeDbError {
    fn fmt(&self, f: &mut std::fmt::Formatter<'_>) -> std::fmt::Result {
        f.write_str(&self.message)
    }
}

impl std::error::Error for FakeDbError {}

impl sqlx::error::DatabaseError for FakeDbError {
    fn message(&self) -> &str {
        &self.message
    }

    fn code(&self) -> Option<Cow<'_, str>> {
        self.code.as_deref().map(Cow::Borrowed)
    }

    fn as_error(&self) -> &(dyn std::error::Error + Send + Sync + 'static) {
        self
    }

    fn as_error_mut(&mut self) -> &mut (dyn std::error::Error + Send + Sync + 'static) {
        self
    }

    fn into_error(self: Box<Self>) -> Box<dyn std::error::Error + Send + Sync + 'static> {
        self
    }

    fn kind(&self) -> sqlx::error::ErrorKind {
        sqlx::error::ErrorKind::Other
    }
}

fn db_error(code: Option<&str>, message: &str) -> sqlx::Error {
    sqlx::Error::Database(Box::new(FakeDbError {
        code: code.map(|c| c.to_string()),
        message: message.to_string(),
    }))
}

#[test]
fn unique_constraint_field_takes_text_after_first_dot() {
    assert_eq!(unique_constraint_field("UNIQUE constraint failed: todo.description"), "description");
    assert_eq!(unique_constraint_field("UNIQUE constraint failed: user.email"), "email");
    assert_eq!(unique_constraint_field("UNIQUE constraint failed: t.a, t.b"), "a, t.b");
}

#[test]
fn unique_constraint_field_is_empty_when_parsing_fails() {
    assert_eq!(unique_constraint_field("UNIQUE constraint failed: nodot"), "");
    assert_eq!(unique_constraint_field("something else: todo.description"), "");
    assert_eq!(unique_constraint_field(""), "");
}

#[test]
fn unique_constraint_error_needs_code_2067() {
    match unique_constraint_error(Some("2067"), "UNIQUE constraint failed: todo.description") {
        Some(DbError::UniqueConstraint(pairs)) => assert_eq!(
            pairs,
            vec![("description".to_string(), "UNIQUE constraint failed: todo.description".to_string())]
        ),
        other => panic!("unexpected {:?}", other),
    }
    assert!(unique_constraint_error(Some("1555"), "UNIQUE constraint failed: todo.id").is_none());
    assert!(unique_constraint_error(None, "UNIQUE constraint failed: todo.id").is_none());
}

#[test]
fn map_constraint_error_translates_unique_violation() {
    let e = DbError::DatabaseError(db_error(Some("2067"), "UNIQUE constraint failed: user.email"));
    match map_constraint_error(e) {
        DbError::UniqueConstraint(pairs) => assert_eq!(
            pairs,
            vec![("email".to_string(), "UNIQUE constraint failed: user.email".to_string())]
        ),
        other => panic!("unexpected {:?}", other),
    }
}

#[test]
fn map_constraint_error_keeps_message_when_field_unparsable() {
    let e = DbError::DatabaseError(db_error(Some("2067"), "odd message"));
    match map_constraint_error(e) {
        DbError::UniqueConstraint(pairs) => {
            assert_eq!(pairs, vec![(String::new(), "odd message".to_string())])
        }
        other => panic!("unexpected {:?}", other),
    }
}

#[test]
fn map_constraint_error_passes_other_errors_through() {
    let e = DbError::DatabaseError(db_error(Some("787"), "FOREIGN KEY constraint failed"));
    assert!(matches!(map_constraint_error(e), DbError::DatabaseError(sqlx::Error::Database(_))));
    let e = DbError::DatabaseError(db_error(None, "UNIQUE constraint failed: a.b"));
    assert!(matches!(map_constraint_error(e), DbError::DatabaseError(_)));
    let e = DbError::DatabaseError(sqlx::Error::RowNotFound);
    assert!(matches!(map_constraint_error(e), DbError::DatabaseError(sqlx::Error::RowNotFound)));
    assert!(matches!(map_constraint_error(DbError::NoRecordFound), DbError::NoRecordFound));
    let e = DbError::UniqueConstraint(vec![("a".to_string(), "b".to_string())]);
    match map_constraint_error(e) {
        DbError::UniqueConstraint(pairs) => assert_eq!(pairs, vec![("a".to_string(), "b".to_string())]),
        other => panic!("unexpected {:?}", other),
    }
}

#[test]
fn map_constraint_err_on_results() {
    let ok: Result<i32, sqlx::Error> = Ok(5);
    assert_eq!(ok.map_constraint_err().unwrap(), 5);
    let err: Result<i32, sqlx::Error> = Err(db_error(Some("2067"), "UNIQUE constraint failed: todo.description"));
    match err.map_constraint_err() {
        Err(DbError::UniqueConstraint(pairs)) => assert_eq!(pairs[0].0, "description"),
        other => panic!("unexpected {:?}", other),
    }
    let err: Result<i32, DbError> = Err(DbError::NoRecordFound);
    assert!(matches!(err.map_constraint_err(), Err(DbError::NoRecordFound)));
    let err: Result<i32, argon2::password_hash::Error> = Err(argon2::password_hash::Error::Crypto);
    assert!(matches!(err.map_constraint_err(), Err(DbError::PasswordHashError(_))));
    let err: Result<i32, validator::ValidationErrors> = Err(validator::ValidationErrors::new());
    assert!(matches!(err.map_constraint_err(), Err(DbError::ValidationError(_))));
}

#[test]
fn error_messages() {
    assert_eq!(DbError::NoRecordFound.to_string(), "no record found");
    assert_eq!(DbError::UniqueConstraint(vec![]).to_string(), "unique constraint error");
    assert_eq!(DbError::DatabaseError(sqlx::Error::RowNotFound).to_string(), "database query failed");
    assert_eq!(DbError::ValidationError(validator::ValidationErrors::new()).to_string(), "validation failed");
    assert_eq!(
        DbError::PasswordHashError(argon2::password_hash::Error::Crypto).to_string(),
        "password hashing failed"
    );
}

#[test]
fn from_conversions_wrap_outside_errors() {
    assert!(matches!(DbError::from(sqlx::Error::RowNotFound), DbError::DatabaseError(_)));
    assert!(matches!(DbError::from(validator::ValidationErrors::new()), DbError::ValidationError(_)));
    assert!(matches!(
        DbError::from(argon2::password_hash::Error::Crypto),
        DbError::PasswordHashError(_)
    ));
}

#[test]
fn sqlite_unique_violation_is_translated() {
    let rt = tokio::runtime::Builder::new_current_thread().enable_all().build().unwrap();
    rt.block_on(async {
        let pool = sqlx::sqlite::SqlitePoolOptions::new()
            .max_connections(1)
            .connect("sqlite::memory:")
            .await
            .unwrap();
        sqlx::query("create table todo (id integer primary key, description text not null unique)")
            .execute(&pool)
            .await
            .unwrap();
        sqlx::query("insert into todo (description) values ('milk')").execute(&pool).await.unwrap();
        let second = sqlx::query("insert into todo (description) values ('milk')")
            .execute(&pool)
            .await
            .map_constraint_err();
        match second {
            Err(DbError::UniqueConstraint(pairs)) => assert_eq!(
                pairs,
                vec![(
                    "description".to_string(),
                    "UNIQUE constraint failed: todo.description".to_string()
                )]
            ),
            other => panic!("unexpected {:?}", other),
        }
    });
}

#[test]
fn map_constraint_error_twice_is_once() {
    let e = DbError::DatabaseError(db_error(Some("2067"), "UNIQUE constraint failed: todo.description"));
    let once = map_constraint_error(e);
    let once_pairs = match &once {
        DbError::UniqueConstraint(pairs) => pairs.clone(),
        other => panic!("unexpected {:?}", other),
    };
    match map_constraint_error(once) {
        DbError::UniqueConstraint(pairs) => assert_eq!(pairs, once_pairs),
        other => panic!("unexpected {:?}", other),
    }
    let e = DbError::DatabaseError(db_error(Some("787"), "FOREIGN KEY constraint failed"));
    let twice = map_constraint_error(map_constraint_error(e));
    match twice {
        DbError::DatabaseError(sqlx::Error::Database(d)) => {
            assert_eq!(d.message(), "FOREIGN KEY constraint failed");
            assert_eq!(d.code().as_deref(), Some("787"));
        }
        other => panic!("unexpected {:?}", other),
    }
}
