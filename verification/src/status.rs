//! The status code of the messaging service's answer.

use crate::text::has_prefix;
use reqwest::StatusCode;
use vstd::prelude::*;

verus! {

/// The codes that an HTTP answer can carry: three decimal digits, the first
/// of them not zero.
pub open spec fn valid_code(code: u16) -> bool {
    100 <= code <= 999
}

/// The codes that report success.
pub open spec fn success_code(code: u16) -> bool {
    200 <= code < 300
}

/// The character that writes the decimal digit `d`.
pub open spec fn digit_char(d: int) -> char
    recommends
        0 <= d <= 9,
{
    seq!['0', '1', '2', '3', '4', '5', '6', '7', '8', '9'][d]
}

/// The three decimal digits of a valid code, highest first.
pub open spec fn code_digits(code: int) -> Seq<char>
    recommends
        100 <= code <= 999,
{
    seq![digit_char(code / 100), digit_char((code / 10) % 10), digit_char(code % 10)]
}

/// How `reqwest::StatusCode` prints the code `code`: the number, a space and
/// the standard reason phrase that belongs to it.
pub uninterp spec fn status_display(code: u16) -> Seq<char>;

/// Trusted: `reqwest::StatusCode::is_success`, which holds exactly of the
/// codes from 200 to 299. The code is made a `StatusCode` by `from_u16`,
/// which takes every code from 100 to 999 and no other.
#[verifier::external_body]
fn status_is_success(code: u16) -> (ok: bool)
    requires
        valid_code(code),
    ensures
        ok == success_code(code),
{
    StatusCode::from_u16(code).unwrap().is_success()
}

/// Trusted: the `Display` of `reqwest::StatusCode`, reached through
/// `to_string`. It writes the code as a decimal number, then one space, then
/// the reason phrase; a valid code takes three digits. The code is made a
/// `StatusCode` by `from_u16`, which takes every code from 100 to 999.
#[verifier::external_body]
fn status_to_string(code: u16) -> (line: String)
    requires
        valid_code(code),
    ensures
        line@ == status_display(code),
        has_prefix(line@, code_digits(code as int).push(' ')),
{
    StatusCode::from_u16(code).unwrap().to_string()
}

/// A status code that an answer carried. It is always a valid code.
#[derive(Clone, Copy, Debug)]
pub struct RemoteStatus {
    code: u16,
}

impl View for RemoteStatus {
    type V = u16;

    closed spec fn view(&self) -> u16 {
        self.code
    }
}

impl RemoteStatus {
    #[verifier::type_invariant]
    spec fn in_range(self) -> bool {
        valid_code(self.code)
    }

    /// The status for `code`, if `code` is a valid code.
    pub fn new(code: u16) -> (status: Option<RemoteStatus>)
        ensures
            status is Some <==> valid_code(code),
            status matches Some(s) ==> s@ == code,
    {
        if 100 <= code && code <= 999 {
            Some(RemoteStatus { code })
        } else {
            None
        }
    }

    /// The code as a number.
    pub fn code(&self) -> (code: u16)
        ensures
            code == self@,
            valid_code(code),
    {
        proof {
            use_type_invariant(self);
        }
        self.code
    }

    /// Whether the code reports success.
    pub fn is_success(&self) -> (ok: bool)
        ensures
            ok == success_code(self@),
    {
        proof {
            use_type_invariant(self);
        }
        status_is_success(self.code)
    }

    /// The code as the messaging client prints it.
    pub fn display(&self) -> (line: String)
        ensures
            line@ == status_display(self@),
            has_prefix(line@, code_digits(self@ as int).push(' ')),
    {
        proof {
            use_type_invariant(self);
        }
        status_to_string(self.code)
    }
}

} // verus!
