//! HTTP status codes as the fetcher sees them.

use vstd::prelude::*;

verus! {

/// The text that `reqwest` prints for the status with the given code: the
/// code followed by its canonical reason phrase.
pub uninterp spec fn status_text_of(code: int) -> Seq<char>;

/// Renders a status code through `reqwest::StatusCode`: `from_u16` accepts
/// exactly the codes from 100 to 999, and the text is what the `Display`
/// impl of the resulting status writes.
#[verifier::external_body]
fn status_text(code: u16) -> (text: Option<String>)
    ensures
        text is Some <==> 100 <= code <= 999,
        text matches Some(t) ==> t@ == status_text_of(code as int),
{
    match reqwest::StatusCode::from_u16(code) {
        Ok(status) => Some(status.to_string()),
        Err(_) => None,
    }
}

/// A three-digit HTTP status code.
#[derive(Clone, Copy, Debug, PartialEq, Eq, Structural)]
pub struct HttpStatus {
    code: u16,
}

impl View for HttpStatus {
    type V = int;

    closed spec fn view(&self) -> int {
        self.code as int
    }
}

impl HttpStatus {
    #[verifier::type_invariant]
    spec fn in_range(self) -> bool {
        100 <= self.code <= 999
    }

    /// Accepts exactly the codes from 100 to 999.
    pub fn new(code: u16) -> (status: Option<HttpStatus>)
        ensures
            status is Some <==> 100 <= code <= 999,
            status matches Some(s) ==> s@ == code,
    {
        if 100 <= code && code <= 999 {
            Some(HttpStatus { code })
        } else {
            None
        }
    }

    /// The numeric code.
    pub fn code(&self) -> (code: u16)
        ensures
            code == self@,
            100 <= code <= 999,
    {
        proof {
            use_type_invariant(self);
        }
        self.code
    }

    /// Whether the code lies in the 2xx class.
    pub fn is_success(&self) -> (ok: bool)
        ensures
            ok == (200 <= self@ < 300),
    {
        200 <= self.code && self.code < 300
    }

    /// The code with its canonical reason phrase, such as `404 Not Found`.
    pub fn describe(&self) -> (text: String)
        ensures
            text@ == status_text_of(self@),
    {
        proof {
            use_type_invariant(self);
        }
        status_text(self.code).unwrap()
    }
}

} // verus!
