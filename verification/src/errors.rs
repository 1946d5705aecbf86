//! The API's error type, its mapping to HTTP status codes and messages, and
//! the text of an error together with its chain of causes.

use crate::status::{is_success_code, StatusCode};
use vstd::prelude::*;
use vstd::string::StringExecFns;

verus! {

/// API error types with HTTP status code mapping.
///
/// | Variant | Status Code |
/// |---------|-------------|
/// | `BadRequest` | 400 Bad Request |
/// | `Unauthorized` | 401 Unauthorized |
/// | `Forbidden` | 403 Forbidden |
/// | `NotFound` | 404 Not Found |
/// | `Conflict` | 409 Conflict |
/// | `UnprocessableEntity` | 422 Unprocessable Entity |
/// | `Internal` | 500 Internal Server Error |
#[non_exhaustive]
pub enum ApiError {
    /// The request was malformed or invalid.
    BadRequest(String),
    /// Authentication is required for this resource.
    Unauthorized(String),
    /// The authenticated user does not have permission.
    Forbidden(String),
    /// The requested resource was not found.
    NotFound(String),
    /// The request conflicts with the current state.
    Conflict(String),
    /// The request was well-formed but semantically invalid.
    UnprocessableEntity(String),
    /// An internal server error occurred.
    Internal(String),
}

impl ApiError {
    /// The text that the error carries.
    pub open spec fn detail(&self) -> Seq<char> {
        match self {
            ApiError::BadRequest(m) => m@,
            ApiError::Unauthorized(m) => m@,
            ApiError::Forbidden(m) => m@,
            ApiError::NotFound(m) => m@,
            ApiError::Conflict(m) => m@,
            ApiError::UnprocessableEntity(m) => m@,
            ApiError::Internal(m) => m@,
        }
    }

    /// The HTTP status number of each kind of error.
    pub open spec fn spec_status(&self) -> u16 {
        match self {
            ApiError::BadRequest(_) => 400,
            ApiError::Unauthorized(_) => 401,
            ApiError::Forbidden(_) => 403,
            ApiError::NotFound(_) => 404,
            ApiError::Conflict(_) => 409,
            ApiError::UnprocessableEntity(_) => 422,
            ApiError::Internal(_) => 500,
        }
    }

    /// The reason phrase that starts the error's message.
    pub open spec fn message_prefix(&self) -> Seq<char> {
        match self {
            ApiError::BadRequest(_) => "Bad Request: "@,
            ApiError::Unauthorized(_) => "Unauthorized: "@,
            ApiError::Forbidden(_) => "Forbidden: "@,
            ApiError::NotFound(_) => "Not Found: "@,
            ApiError::Conflict(_) => "Conflict: "@,
            ApiError::UnprocessableEntity(_) => "Unprocessable Entity: "@,
            ApiError::Internal(_) => "Internal Server Error: "@,
        }
    }

    /// The message that clients receive: reason phrase, then the detail.
    pub open spec fn spec_message(&self) -> Seq<char> {
        self.message_prefix() + self.detail()
    }

    /// The start of the error's display text.
    pub open spec fn display_prefix(&self) -> Seq<char> {
        match self {
            ApiError::BadRequest(_) => "Bad request: "@,
            ApiError::Unauthorized(_) => "Unauthorized: "@,
            ApiError::Forbidden(_) => "Forbidden: "@,
            ApiError::NotFound(_) => "Resource not found: "@,
            ApiError::Conflict(_) => "Conflict: "@,
            ApiError::UnprocessableEntity(_) => "Unprocessable entity: "@,
            ApiError::Internal(_) => "Internal server error: "@,
        }
    }

    /// The error's display text.
    pub open spec fn spec_display(&self) -> Seq<char> {
        self.display_prefix() + self.detail()
    }

    /// Returns the HTTP status code for this error.
    pub fn status_code(&self) -> (s: StatusCode)
        ensures
            s@ == self.spec_status(),
    {
        let code: u16 = match self {
            ApiError::BadRequest(_) => 400,
            ApiError::Unauthorized(_) => 401,
            ApiError::Forbidden(_) => 403,
            ApiError::NotFound(_) => 404,
            ApiError::Conflict(_) => 409,
            ApiError::UnprocessableEntity(_) => 422,
            ApiError::Internal(_) => 500,
        };
        StatusCode::new(code)
    }

    /// Returns the error message for this error.
    pub fn message(&self) -> (m: String)
        ensures
            m@ == self.spec_message(),
    {
        match self {
            ApiError::BadRequest(msg) => prefixed("Bad Request: ", msg),
            ApiError::Unauthorized(msg) => prefixed("Unauthorized: ", msg),
            ApiError::Forbidden(msg) => prefixed("Forbidden: ", msg),
            ApiError::NotFound(msg) => prefixed("Not Found: ", msg),
            ApiError::Conflict(msg) => prefixed("Conflict: ", msg),
            ApiError::UnprocessableEntity(msg) => prefixed("Unprocessable Entity: ", msg),
            ApiError::Internal(msg) => prefixed("Internal Server Error: ", msg),
        }
    }

    /// The error's display text, as its `Display` shows it.
    pub fn to_display_string(&self) -> (t: String)
        ensures
            t@ == self.spec_display(),
    {
        match self {
            ApiError::BadRequest(msg) => prefixed("Bad request: ", msg),
            ApiError::Unauthorized(msg) => prefixed("Unauthorized: ", msg),
            ApiError::Forbidden(msg) => prefixed("Forbidden: ", msg),
            ApiError::NotFound(msg) => prefixed("Resource not found: ", msg),
            ApiError::Conflict(msg) => prefixed("Conflict: ", msg),
            ApiError::UnprocessableEntity(msg) => prefixed("Unprocessable entity: ", msg),
            ApiError::Internal(msg) => prefixed("Internal server error: ", msg),
        }
    }

    /// The error's debug text: its display text followed by its causes,
    /// of which an `ApiError` has none.
    pub fn to_debug_string(&self) -> (t: String)
        ensures
            t@ == error_chain_text(self.spec_display(), Seq::empty()),
    {
        let display = self.to_display_string();
        let causes: Vec<String> = Vec::new();
        let t = error_chain_fmt(display.as_str(), &causes);
        proof {
            assert(causes@.map_values(|c: String| c@) =~= Seq::<Seq<char>>::empty());
        }
        t
    }
}

/// Every API error maps to a client error (4xx) or server error (5xx)
/// status, never to a success status: the `success: false` of its envelope
/// agrees with the status it is sent with.
pub proof fn lemma_error_status_is_failure(error: ApiError)
    ensures
        400 <= error.spec_status() < 600,
        !is_success_code(error.spec_status() as int),
{
}

/// Two texts that differ at a position inside both prefixes differ whatever
/// follows them.
proof fn lemma_prefixes_differ(p1: Seq<char>, d1: Seq<char>, p2: Seq<char>, d2: Seq<char>, i: int)
    requires
        0 <= i < p1.len(),
        i < p2.len(),
        p1[i] != p2[i],
    ensures
        p1 + d1 != p2 + d2,
{
    assert((p1 + d1)[i] == p1[i]);
    assert((p2 + d2)[i] == p2[i]);
}

/// Messages tell errors apart: two errors with the same message are of the
/// same kind (the same status) and carry the same detail.
pub proof fn lemma_message_determines_error(e1: ApiError, e2: ApiError)
    requires
        e1.spec_message() == e2.spec_message(),
    ensures
        e1.spec_status() == e2.spec_status(),
        e1.detail() == e2.detail(),
{
    reveal_strlit("Bad Request: ");
    reveal_strlit("Unauthorized: ");
    reveal_strlit("Forbidden: ");
    reveal_strlit("Not Found: ");
    reveal_strlit("Conflict: ");
    reveal_strlit("Unprocessable Entity: ");
    reveal_strlit("Internal Server Error: ");
    let p1 = e1.message_prefix();
    let p2 = e2.message_prefix();
    if e1.spec_status() != e2.spec_status() {
        let i: int = if p1[0] == 'U' && p2[0] == 'U' { 2 } else { 0 };
        lemma_prefixes_differ(p1, e1.detail(), p2, e2.detail(), i);
    } else {
        assert(p1 == p2);
        let m = e1.spec_message();
        assert(e1.detail() =~= m.subrange(p1.len() as int, m.len() as int));
        assert(e2.detail() =~= m.subrange(p1.len() as int, m.len() as int));
    }
}

/// `prefix` followed by `detail`.
fn prefixed(prefix: &str, detail: &String) -> (r: String)
    ensures
        r@ == prefix@ + detail@,
{
    let mut r = String::from_str(prefix);
    r.append(detail.as_str());
    r
}

/// The lines that list the causes of an error, one per cause.
pub open spec fn cause_lines(causes: Seq<Seq<char>>) -> Seq<char>
    decreases causes.len(),
{
    if causes.len() == 0 {
        Seq::empty()
    } else {
        cause_lines(causes.drop_last()) + "Caused by:\n    "@ + causes.last() + "\n"@
    }
}

/// The text of an error and its cause chain: the error, a blank line, then
/// for each cause `Caused by:`, a line break, four spaces and the cause's text.
pub open spec fn error_chain_text(error: Seq<char>, causes: Seq<Seq<char>>) -> Seq<char> {
    error + "\n\n"@ + cause_lines(causes)
}

/// With no causes, the text is the error followed by a blank line.
pub proof fn lemma_chain_text_without_causes(error: Seq<char>)
    ensures
        error_chain_text(error, Seq::empty()) == error + "\n\n"@,
{
    assert(error + "\n\n"@ + Seq::<char>::empty() =~= error + "\n\n"@);
}

/// One more cause adds exactly one line pair at the end: `Caused by:`, a
/// line break, four spaces, the cause and a line break; nothing else of the
/// text changes.
pub proof fn lemma_chain_text_adds_cause(error: Seq<char>, causes: Seq<Seq<char>>, cause: Seq<char>)
    ensures
        error_chain_text(error, causes.push(cause)) == error_chain_text(error, causes)
            + "Caused by:\n    "@ + cause + "\n"@,
{
    assert(causes.push(cause).drop_last() =~= causes);
    assert(error_chain_text(error, causes.push(cause)) =~= error_chain_text(error, causes)
        + "Caused by:\n    "@ + cause + "\n"@);
}

/// The text for a single cause, written out.
pub proof fn lemma_chain_text_one_cause(error: Seq<char>, cause: Seq<char>)
    ensures
        error_chain_text(error, seq![cause]) == error + "\n\nCaused by:\n    "@ + cause + "\n"@,
{
    reveal_strlit("\n\n");
    reveal_strlit("Caused by:\n    ");
    reveal_strlit("\n\nCaused by:\n    ");
    lemma_chain_text_adds_cause(error, Seq::empty(), cause);
    lemma_chain_text_without_causes(error);
    assert(Seq::<Seq<char>>::empty().push(cause) =~= seq![cause]);
    assert(error + "\n\n"@ + "Caused by:\n    "@ + cause + "\n"@ =~= error
        + "\n\nCaused by:\n    "@ + cause + "\n"@);
}

/// Formats an error and its cause chain, given the error's display text
/// and the display texts of its causes, nearest cause first.
pub fn error_chain_fmt(error: &str, causes: &Vec<String>) -> (text: String)
    ensures
        text@ == error_chain_text(error@, causes@.map_values(|c: String| c@)),
{
    let ghost views = causes@.map_values(|c: String| c@);
    let mut text = String::from_str(error);
    text.append("\n\n");
    let mut i: usize = 0;
    while i < causes.len()
        invariant
            i <= causes.len(),
            views == causes@.map_values(|c: String| c@),
            text@ == error_chain_text(error@, views.take(i as int)),
        decreases causes.len() - i,
    {
        text.append("Caused by:\n    ");
        text.append(causes[i].as_str());
        text.append("\n");
        proof {
            assert(views.take(i + 1).drop_last() =~= views.take(i as int));
            assert(views.take(i + 1).last() == causes@[i as int]@);
        }
        i = i + 1;
    }
    proof {
        assert(views.take(causes.len() as int) =~= views);
    }
    text
}

} // verus!
