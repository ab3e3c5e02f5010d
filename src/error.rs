use vstd::prelude::*;

verus! {

/// The closed set of failures of the service.
pub enum MyError {
    /// The store failed (connectivity, a constraint, anything unexpected);
    /// the text is kept for the log and never shown to the client.
    DBError(String),
    /// No record matches the scoping key.
    NotFound(String),
    /// A mandatory input field is missing.
    InvalidInput(String),
}

/// The HTTP status each kind of failure is answered with.
pub open spec fn status_of(e: MyError) -> u16 {
    match e {
        MyError::DBError(_) => 500,
        MyError::NotFound(_) => 404,
        MyError::InvalidInput(_) => 400,
    }
}

/// What the client is told of a failure: a generic text for store
/// failures, the carried text otherwise.
pub open spec fn client_message(e: MyError) -> Seq<char> {
    match e {
        MyError::DBError(_) => "Database error"@,
        MyError::NotFound(m) => m@,
        MyError::InvalidInput(m) => m@,
    }
}

impl MyError {
    pub open spec fn is_not_found(&self) -> bool {
        self is NotFound
    }

    pub open spec fn is_invalid_input(&self) -> bool {
        self is InvalidInput
    }

    pub open spec fn is_db_error(&self) -> bool {
        self is DBError
    }

    /// The status code the failure is answered with.
    pub fn status_code(&self) -> (r: u16)
        ensures
            r == status_of(*self),
    {
        match self {
            MyError::DBError(_) => 500,
            MyError::NotFound(_) => 404,
            MyError::InvalidInput(_) => 400,
        }
    }

    /// The text of the response body; store details are not disclosed.
    pub fn error_response(&self) -> (r: String)
        ensures
            r@ == client_message(*self),
    {
        match self {
            MyError::DBError(_) => "Database error".to_owned(),
            MyError::NotFound(m) => m.clone(),
            MyError::InvalidInput(m) => m.clone(),
        }
    }
}

} // verus!
