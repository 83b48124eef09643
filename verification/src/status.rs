//! Status codes of responses, and the text that a status line carries for one.

use vstd::prelude::*;

verus! {

/// Whether a number is a status code: three digits, the first of them 1 to 5.
pub open spec fn is_status_code(code: int) -> bool {
    100 <= code <= 599
}

/// The character that is written for a decimal digit.
pub open spec fn digit_char(digit: int) -> char
    recommends
        0 <= digit <= 9,
{
    "0123456789"@[digit]
}

/// The three decimal digits of a status code.
pub open spec fn status_digits(code: int) -> Seq<char>
    recommends
        is_status_code(code),
{
    seq![digit_char(code / 100), digit_char(code / 10 % 10), digit_char(code % 10)]
}

/// What a status line says where a code has no reason phrase.
pub open spec fn unknown_reason() -> Seq<char> {
    "<unknown status code>"@
}

/// A status as it stands in a status line: the digits of the code, a space,
/// and the reason phrase, or the words of `unknown_reason` in its place.
pub open spec fn status_text_with(code: int, reason: Option<Seq<char>>) -> Seq<char> {
    status_digits(code) + seq![' '] + match reason {
        Some(phrase) => phrase,
        None => unknown_reason(),
    }
}

/// The reason phrase that `http::StatusCode::canonical_reason` has for the
/// status code with this number; none where it has no phrase for the number,
/// or where `http` takes no status code of this number.
pub uninterp spec fn reason_phrase(code: u16) -> Option<Seq<char>>;

/// A status with the reason phrase that is registered for its code.
pub open spec fn status_text(code: u16) -> Seq<char> {
    status_text_with(code as int, reason_phrase(code))
}

/// The characters of an optional string slice.
pub open spec fn phrase_view(phrase: Option<&str>) -> Option<Seq<char>> {
    match phrase {
        Some(text) => Some(text@),
        None => None,
    }
}

/// Calls `http::StatusCode::from_u16` and, on the status code it gives,
/// `http::StatusCode::canonical_reason`. Nothing is claimed of the phrase but
/// that it depends on the number alone: it is `reason_phrase` of the number.
#[verifier::external_body]
fn canonical_reason(code: u16) -> (reason: Option<&'static str>)
    ensures
        phrase_view(reason) == reason_phrase(code),
{
    match http::StatusCode::from_u16(code) {
        Ok(status) => status.canonical_reason(),
        Err(_) => None,
    }
}

/// The status code of a response: a number from 100 to 599.
#[derive(Clone, Copy, Debug, PartialEq, Eq)]
pub struct StatusCode {
    code: u16,
}

impl View for StatusCode {
    type V = u16;

    closed spec fn view(&self) -> u16 {
        self.code
    }
}

impl StatusCode {
    #[verifier::type_invariant]
    spec fn in_range(self) -> bool {
        is_status_code(self.code as int)
    }

    /// The status code with the given number, if the number is one.
    pub fn new(code: u16) -> (status: Option<StatusCode>)
        ensures
            status is Some <==> is_status_code(code as int),
            status is Some ==> status->0@ == code,
    {
        if 100 <= code && code <= 599 {
            Some(StatusCode { code })
        } else {
            None
        }
    }

    /// The number of this status code.
    pub fn as_u16(&self) -> (code: u16)
        ensures
            code == self@,
            is_status_code(code as int),
    {
        proof {
            use_type_invariant(self);
        }
        self.code
    }

    /// The reason phrase registered for this code, if there is one.
    pub fn canonical_reason(&self) -> (reason: Option<&'static str>)
        ensures
            phrase_view(reason) == reason_phrase(self@),
    {
        canonical_reason(self.code)
    }

    /// This status as a status line carries it, with the reason phrase
    /// registered for its code.
    pub fn to_text(&self) -> (text: String)
        ensures
            text@ == status_text(self@),
    {
        let reason = self.canonical_reason();
        render_status(*self, reason)
    }
}

/// The string slice of one decimal digit.
fn digit_str(digit: u16) -> (text: &'static str)
    requires
        digit <= 9,
    ensures
        text@ == seq![digit_char(digit as int)],
{
    proof {
        reveal_strlit("0123456789");
        reveal_strlit("0");
        reveal_strlit("1");
        reveal_strlit("2");
        reveal_strlit("3");
        reveal_strlit("4");
        reveal_strlit("5");
        reveal_strlit("6");
        reveal_strlit("7");
        reveal_strlit("8");
        reveal_strlit("9");
    }
    let text = if digit == 0 {
        "0"
    } else if digit == 1 {
        "1"
    } else if digit == 2 {
        "2"
    } else if digit == 3 {
        "3"
    } else if digit == 4 {
        "4"
    } else if digit == 5 {
        "5"
    } else if digit == 6 {
        "6"
    } else if digit == 7 {
        "7"
    } else if digit == 8 {
        "8"
    } else {
        "9"
    };
    assert(text@ =~= seq![digit_char(digit as int)]);
    text
}

/// Writes a status with a given reason phrase: the digits of the code, a
/// space, and the phrase, or `<unknown status code>` where there is none.
pub fn render_status(status: StatusCode, reason: Option<&str>) -> (text: String)
    ensures
        text@ == status_text_with(status@ as int, phrase_view(reason)),
{
    let code = status.as_u16();
    let mut text = String::from_str(digit_str(code / 100));
    text.append(digit_str(code / 10 % 10));
    text.append(digit_str(code % 10));
    proof {
        reveal_strlit(" ");
    }
    text.append(" ");
    assert(text@ =~= status_digits(code as int) + seq![' ']);
    match reason {
        Some(phrase) => text.append(phrase),
        None => text.append("<unknown status code>"),
    }
    text
}

} // verus!
