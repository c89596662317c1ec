//! Errors of the data layer, and the translation of a database's unique
//! constraint failure into an error that names the offending field.
use vstd::prelude::*;
use vstd::std_specs::convert::{FromSpec, FromSpecImpl};
use crate::text::{split_once, str_equals, strip_prefix};

verus! {

/// The error type of `sqlx`; opaque here.
#[verifier::external_type_specification]
#[verifier::external_body]
pub struct ExSqlxError(sqlx::Error);

/// The collected validation failures of `validator`; opaque here.
#[verifier::external_type_specification]
#[verifier::external_body]
pub struct ExValidationErrors(validator::ValidationErrors);

/// The error type of password hashing; opaque here.
#[verifier::external_type_specification]
#[verifier::external_body]
pub struct ExPasswordHashError(argon2::password_hash::Error);

/// Errors that can occur as a result of a data layer operation.
#[derive(Debug)]
pub enum DbError {
    /// No record was found, e.g. when loading a record by ID. Unlike a
    /// database error that reports a missing row, this one indicates no bug.
    NoRecordFound,
    /// A unique constraint failed: pairs of the field concerned and the
    /// message of the database.
    UniqueConstraint(Vec<(String, String)>),
    /// General database error, e.g. communicating with the database failed.
    DatabaseError(sqlx::Error),
    /// An invalid changeset was passed to a writing operation.
    ValidationError(validator::ValidationErrors),
    /// An error occurred while hashing a password.
    PasswordHashError(argon2::password_hash::Error),
}

impl DbError {
    /// The message that the error shows.
    pub fn to_string(&self) -> (r: String)
        ensures
            r@ == error_message(*self),
    {
        match self {
            DbError::NoRecordFound => String::from_str("no record found"),
            DbError::UniqueConstraint(_) => String::from_str("unique constraint error"),
            DbError::DatabaseError(_) => String::from_str("database query failed"),
            DbError::ValidationError(_) => String::from_str("validation failed"),
            DbError::PasswordHashError(_) => String::from_str("password hashing failed"),
        }
    }
}

/// The message that an error shows, by its kind.
pub open spec fn error_message(e: DbError) -> Seq<char> {
    match e {
        DbError::NoRecordFound => "no record found"@,
        DbError::UniqueConstraint(_) => "unique constraint error"@,
        DbError::DatabaseError(_) => "database query failed"@,
        DbError::ValidationError(_) => "validation failed"@,
        DbError::PasswordHashError(_) => "password hashing failed"@,
    }
}

impl From<sqlx::Error> for DbError {
    /// Wraps the error, unchanged, in `DbError::DatabaseError`.
    fn from(e: sqlx::Error) -> (r: Self)
        ensures
            r == DbError::DatabaseError(e),
    {
        DbError::DatabaseError(e)
    }
}

impl FromSpecImpl<sqlx::Error> for DbError {
    open spec fn obeys_from_spec() -> bool {
        true
    }

    open spec fn from_spec(v: sqlx::Error) -> Self {
        DbError::DatabaseError(v)
    }
}

impl From<validator::ValidationErrors> for DbError {
    /// Wraps the error, unchanged, in `DbError::ValidationError`.
    fn from(e: validator::ValidationErrors) -> (r: Self)
        ensures
            r == DbError::ValidationError(e),
    {
        DbError::ValidationError(e)
    }
}

impl FromSpecImpl<validator::ValidationErrors> for DbError {
    open spec fn obeys_from_spec() -> bool {
        true
    }

    open spec fn from_spec(v: validator::ValidationErrors) -> Self {
        DbError::ValidationError(v)
    }
}

impl From<argon2::password_hash::Error> for DbError {
    /// Wraps the error, unchanged, in `DbError::PasswordHashError`.
    fn from(e: argon2::password_hash::Error) -> (r: Self)
        ensures
            r == DbError::PasswordHashError(e),
    {
        DbError::PasswordHashError(e)
    }
}

impl FromSpecImpl<argon2::password_hash::Error> for DbError {
    open spec fn obeys_from_spec() -> bool {
        true
    }

    open spec fn from_spec(v: argon2::password_hash::Error) -> Self {
        DbError::PasswordHashError(v)
    }
}

/// The code by which SQLite reports a failed unique constraint.
pub open spec fn unique_violation_code() -> Seq<char> {
    "2067"@
}

/// How SQLite's message for a failed unique constraint begins; the message
/// goes on with `table.field`.
pub open spec fn unique_violation_prefix() -> Seq<char> {
    "UNIQUE constraint failed: "@
}

/// The field that a unique constraint message names: what follows the
/// first `.` after the prefix, or the empty string when the message does
/// not start with the prefix or holds no `.` after it.
pub open spec fn constraint_field(message: Seq<char>) -> Seq<char> {
    if unique_violation_prefix().is_prefix_of(message) {
        let rest = message.skip(unique_violation_prefix().len() as int);
        match rest.index_of_first('.') {
            Some(k) => rest.skip(k + 1),
            None => Seq::<char>::empty(),
        }
    } else {
        Seq::<char>::empty()
    }
}

/// A message in SQLite's form `UNIQUE constraint failed: table.field`,
/// whose table name holds no `.`, names exactly `field`.
pub proof fn lemma_message_names_field(table: Seq<char>, field: Seq<char>)
    requires
        !table.contains('.'),
    ensures
        constraint_field(unique_violation_prefix() + table + seq!['.'] + field) == field,
{
    let p = unique_violation_prefix();
    let message = p + table + seq!['.'] + field;
    let rest = table + seq!['.'] + field;
    assert(p.is_prefix_of(message)) by {
        assert(message.subrange(0, p.len() as int) =~= p);
    }
    assert(message.skip(p.len() as int) =~= rest);
    rest.index_of_first_ensures('.');
    assert(rest[table.len() as int] == '.');
    let k = rest.index_of_first('.')->0;
    assert(k == table.len()) by {
        if k < table.len() {
            assert(rest[k] == table[k]);
        }
    }
    assert(rest.skip(k + 1) =~= field);
}

/// The field that a unique constraint message names (see `constraint_field`).
pub fn unique_constraint_field(message: &str) -> (r: String)
    ensures
        r@ == constraint_field(message@),
{
    let prefix = "UNIQUE constraint failed: ";
    proof {
        reveal_strlit("");
    }
    match strip_prefix(message, prefix) {
        Some(rest) => match split_once(rest, '.') {
            Some((_table, field)) => String::from_str(field),
            None => String::from_str(""),
        },
        None => String::from_str(""),
    }
}

/// What the translation of a database failure with the given code and
/// message gives: a unique constraint error, holding the named field and
/// the message, exactly when the code is the unique violation code.
pub open spec fn unique_constraint_result(
    code: Option<Seq<char>>,
    message: Seq<char>,
    r: Option<DbError>,
) -> bool {
    if code == Some(unique_violation_code()) {
        r matches Some(DbError::UniqueConstraint(v)) && v@.len() == 1 && v@[0].0@ == constraint_field(
            message,
        ) && v@[0].1@ == message
    } else {
        r is None
    }
}

/// Translates a database failure, given by its code and message, into a
/// unique constraint error when the code says a unique constraint failed.
pub fn unique_constraint_error(code: Option<&str>, message: &str) -> (r: Option<DbError>)
    ensures
        unique_constraint_result(
            match code {
                Some(c) => Some(c@),
                None => None,
            },
            message@,
            r,
        ),
{
    match code {
        Some(c) => {
            if str_equals(c, "2067") {
                let field = unique_constraint_field(message);
                let mut pairs: Vec<(String, String)> = Vec::new();
                pairs.push((field, String::from_str(message)));
                Some(DbError::UniqueConstraint(pairs))
            } else {
                None
            }
        },
        None => None,
    }
}

/// What `sqlx::error::DatabaseError::code` returns for the database error
/// that a `sqlx::Error::Database` holds, and `None` for every other kind of
/// error. The driver returns the code that the error value already holds, so
/// it is a function of that value.
pub uninterp spec fn sqlx_error_code(e: sqlx::Error) -> Option<Seq<char>>;

/// What `sqlx::error::DatabaseError::message` returns for the database error
/// that a `sqlx::Error::Database` holds, and `None` for every other kind of
/// error. The driver returns the message that the error value already holds,
/// so it is a function of that value.
pub uninterp spec fn sqlx_error_message(e: sqlx::Error) -> Option<Seq<char>>;

/// Calls `sqlx::error::DatabaseError::code` on the database error that `e`
/// holds when `e` is `sqlx::Error::Database`, and gives `None` for every
/// other kind of error. The result is tied to `e` through `sqlx_error_code`;
/// which code a driver stores is not stated.
#[verifier::external_body]
fn database_error_code(e: &sqlx::Error) -> (r: Option<String>)
    ensures
        match r {
            Some(s) => sqlx_error_code(*e) == Some(s@),
            None => sqlx_error_code(*e) is None,
        },
{
    match e {
        sqlx::Error::Database(dbe) => dbe.code().map(std::borrow::Cow::into_owned),
        _ => None,
    }
}

/// Calls `sqlx::error::DatabaseError::message` on the database error that
/// `e` holds when `e` is `sqlx::Error::Database`, and gives `None` for every
/// other kind of error. The result is tied to `e` through
/// `sqlx_error_message`; which message a driver stores is not stated.
#[verifier::external_body]
fn database_error_message(e: &sqlx::Error) -> (r: Option<String>)
    ensures
        match r {
            Some(s) => sqlx_error_message(*e) == Some(s@),
            None => sqlx_error_message(*e) is None,
        },
{
    match e {
        sqlx::Error::Database(dbe) => Some(dbe.message().to_string()),
        _ => None,
    }
}

/// Whether a database error reports a failed unique constraint: it carries a
/// message and the unique violation code.
pub open spec fn is_unique_violation(inner: sqlx::Error) -> bool {
    sqlx_error_message(inner) is Some && sqlx_error_code(inner) == Some(unique_violation_code())
}

/// What translating constraint failures does to an error: a database error
/// that reports a failed unique constraint becomes a unique constraint error
/// with one pair, the field that its message names and that message; every
/// other error stays as it is.
pub open spec fn constraint_mapping(before: DbError, after: DbError) -> bool {
    match before {
        DbError::DatabaseError(inner) => if is_unique_violation(inner) {
            let m = sqlx_error_message(inner)->0;
            after matches DbError::UniqueConstraint(v) && v@.len() == 1 && v@[0].0@
                == constraint_field(m) && v@[0].1@ == m
        } else {
            after == before
        },
        _ => after == before,
    }
}

/// Translating twice is translating once: the translation of an error is left
/// as it is by a second translation.
pub proof fn lemma_mapping_idempotent(e: DbError, once: DbError, twice: DbError)
    requires
        constraint_mapping(e, once),
        constraint_mapping(once, twice),
    ensures
        twice == once,
{
}

/// Converting an outside error into a data layer error wraps that very
/// error in the variant of its kind, as `?` does: a `sqlx` error becomes
/// `DatabaseError`, validation failures `ValidationError`, a password hashing
/// error `PasswordHashError`.
pub proof fn lemma_conversions_wrap(
    db: sqlx::Error,
    invalid: validator::ValidationErrors,
    hashing: argon2::password_hash::Error,
)
    ensures
        <DbError as FromSpec<sqlx::Error>>::obeys_from_spec(),
        <DbError as FromSpec<sqlx::Error>>::from_spec(db) == DbError::DatabaseError(db),
        <DbError as FromSpec<validator::ValidationErrors>>::obeys_from_spec(),
        <DbError as FromSpec<validator::ValidationErrors>>::from_spec(invalid)
            == DbError::ValidationError(invalid),
        <DbError as FromSpec<argon2::password_hash::Error>>::obeys_from_spec(),
        <DbError as FromSpec<argon2::password_hash::Error>>::from_spec(hashing)
            == DbError::PasswordHashError(hashing),
{
}

/// Recognising a unique constraint failure from a code and a message: only
/// the code "2067" is one, and it gives a unique constraint error with one
/// pair whose second part is the message itself; every other code, and no
/// code at all, gives nothing.
pub proof fn lemma_only_code_2067(code: Option<Seq<char>>, message: Seq<char>, r: Option<DbError>)
    requires
        unique_constraint_result(code, message, r),
    ensures
        code != Some("2067"@) ==> r is None,
        code == Some("2067"@) ==> (r matches Some(DbError::UniqueConstraint(v)) && v@.len() == 1
            && v@[0].1@ == message),
{
}

/// The field named by a message: empty unless the message starts with
/// "UNIQUE constraint failed: " and holds a `.` after it; otherwise the text
/// after the first such `.`, which is a suffix of the message.
pub proof fn lemma_field_shape(message: Seq<char>)
    ensures
        !"UNIQUE constraint failed: "@.is_prefix_of(message) ==> constraint_field(message)
            == Seq::<char>::empty(),
        "UNIQUE constraint failed: "@.is_prefix_of(message) && !message.skip(
            "UNIQUE constraint failed: "@.len() as int,
        ).contains('.') ==> constraint_field(message) == Seq::<char>::empty(),
        constraint_field(message).is_suffix_of(message),
        constraint_field(message).len() > 0 ==> message[message.len() - constraint_field(
            message,
        ).len() - 1] == '.',
{
    let p = "UNIQUE constraint failed: "@;
    if p.is_prefix_of(message) {
        let rest = message.skip(p.len() as int);
        rest.index_of_first_ensures('.');
        match rest.index_of_first('.') {
            Some(k) => {
                let f = rest.skip(k + 1);
                assert(f =~= message.subrange(message.len() - f.len(), message.len() as int));
                assert(message[message.len() - f.len() - 1] == rest[k]);
            },
            None => {},
        }
    }
}

/// What translating constraint failures does, case by case: an error that
/// does not come from the database is given back as it is; so is a database
/// error without a message or whose code is not exactly "2067"; a database
/// error with code "2067" and message `m` becomes a unique constraint error
/// with the one pair (field named by `m`, `m`).
pub proof fn lemma_translation_cases(e: DbError, after: DbError)
    requires
        constraint_mapping(e, after),
    ensures
        !(e is DatabaseError) ==> after == e,
        e matches DbError::DatabaseError(inner) ==> {
            &&& sqlx_error_code(inner) != Some("2067"@) ==> after == e
            &&& sqlx_error_message(inner) is None ==> after == e
            &&& sqlx_error_code(inner) == Some("2067"@) && sqlx_error_message(inner) is Some ==> (
            after matches DbError::UniqueConstraint(v) && v@.len() == 1 && Some(v@[0].1@)
                == sqlx_error_message(inner) && v@[0].0@ == constraint_field(v@[0].1@))
        },
{
}

/// Turns a database error that reports a failed unique constraint (code
/// 2067) into `UniqueConstraint`, naming the field from the database's
/// message; every other error passes through unchanged.
pub fn map_constraint_error(e: DbError) -> (r: DbError)
    ensures
        constraint_mapping(e, r),
{
    match e {
        DbError::DatabaseError(inner) => {
            let code = database_error_code(&inner);
            let message = database_error_message(&inner);
            match message {
                Some(m) => {
                    let found = match &code {
                        Some(c) => unique_constraint_error(Some(c.as_str()), m.as_str()),
                        None => unique_constraint_error(None, m.as_str()),
                    };
                    match found {
                        Some(err) => err,
                        None => DbError::DatabaseError(inner),
                    }
                },
                None => DbError::DatabaseError(inner),
            }
        },
        other => other,
    }
}

/// Converts the error of a result into a data layer error, translating a
/// failed unique constraint into `DbError::UniqueConstraint`.
pub trait ResultExt<T> {
    /// If the error is a database error reporting a failed unique
    /// constraint, transform it; otherwise pass the result through.
    fn map_constraint_err(self) -> Result<T, DbError>;
}

impl<T> ResultExt<T> for Result<T, DbError> {
    fn map_constraint_err(self) -> (r: Result<T, DbError>)
        ensures
            match self {
                Ok(v) => r == Ok::<T, DbError>(v),
                Err(e) => r matches Err(after) && constraint_mapping(e, after),
            },
    {
        match self {
            Ok(v) => Ok(v),
            Err(e) => Err(map_constraint_error(e)),
        }
    }
}

impl<T> ResultExt<T> for Result<T, sqlx::Error> {
    fn map_constraint_err(self) -> (r: Result<T, DbError>)
        ensures
            match self {
                Ok(v) => r == Ok::<T, DbError>(v),
                Err(e) => r matches Err(after) && constraint_mapping(DbError::DatabaseError(e), after),
            },
    {
        match self {
            Ok(v) => Ok(v),
            Err(e) => Err(map_constraint_error(DbError::DatabaseError(e))),
        }
    }
}

impl<T> ResultExt<T> for Result<T, validator::ValidationErrors> {
    fn map_constraint_err(self) -> (r: Result<T, DbError>)
        ensures
            match self {
                Ok(v) => r == Ok::<T, DbError>(v),
                Err(e) => r == Err::<T, DbError>(DbError::ValidationError(e)),
            },
    {
        match self {
            Ok(v) => Ok(v),
            Err(e) => Err(map_constraint_error(DbError::ValidationError(e))),
        }
    }
}

impl<T> ResultExt<T> for Result<T, argon2::password_hash::Error> {
    fn map_constraint_err(self) -> (r: Result<T, DbError>)
        ensures
            match self {
                Ok(v) => r == Ok::<T, DbError>(v),
                Err(e) => r == Err::<T, DbError>(DbError::PasswordHashError(e)),
            },
    {
        match self {
            Ok(v) => Ok(v),
            Err(e) => Err(map_constraint_error(DbError::PasswordHashError(e))),
        }
    }
}

} // verus!
