//! The response envelope: a decode either succeeds, or the response is read
//! as an error envelope reported by the service, or it is unparsable.
use vstd::prelude::*;
use crate::json::{field, get_field, lemma_array_views, opt_view, views, Json, JsonView};
use crate::geometry::{opt_i32, opt_string, read_opt_i32, read_opt_string, Member};

verus! {

/// A failure reported by the service.
#[derive(Debug, PartialEq)]
pub struct ErrorEnvelope {
    pub code: i32,
    pub extended_code: Option<i32>,
    pub message: Option<String>,
    pub details: Option<Vec<String>>,
}

pub struct ErrorView {
    pub code: i32,
    pub extended_code: Option<i32>,
    pub message: Option<Seq<char>>,
    pub details: Option<Seq<Seq<char>>>,
}

impl View for ErrorEnvelope {
    type V = ErrorView;

    open spec fn view(&self) -> ErrorView {
        ErrorView {
            code: self.code,
            extended_code: self.extended_code,
            message: match self.message {
                Some(m) => Some(m@),
                None => None,
            },
            details: match self.details {
                Some(d) => Some(d@.map_values(|s: String| s@)),
                None => None,
            },
        }
    }
}

/// A required integer member within 32 bits.
pub open spec fn req_i32(f: Member) -> Option<i32> {
    match f {
        Some(JsonView::Number(n)) => match n.int {
            Some(i) => if i32::MIN <= i <= i32::MAX {
                Some(i as i32)
            } else {
                None
            },
            None => None,
        },
        _ => None,
    }
}

/// The texts of an array whose items are all text.
pub open spec fn texts(items: Seq<JsonView>) -> Option<Seq<Seq<char>>> {
    if forall|i: int| 0 <= i < items.len() ==> #[trigger] items[i] is Str {
        Some(Seq::new(items.len(), |i: int| items[i]->Str_0))
    } else {
        None
    }
}

/// An optional member that is an array of texts.
pub open spec fn opt_texts(f: Member) -> Option<Option<Seq<Seq<char>>>> {
    match f {
        None => Some(None),
        Some(JsonView::Null) => Some(None),
        Some(JsonView::Array(items)) => match texts(items) {
            Some(t) => Some(Some(t)),
            None => None,
        },
        _ => None,
    }
}

/// The strict decode of an error envelope: an object whose member `error`
/// is an object with an integer `code`.
pub open spec fn error_of(j: JsonView) -> Option<ErrorView> {
    match field(j, "error"@) {
        Some(e) => {
            let code = req_i32(field(e, "code"@));
            let extended_code = opt_i32(field(e, "extendedCode"@));
            let message = opt_string(field(e, "message"@));
            let details = opt_texts(field(e, "details"@));
            if e is Object && code is Some && extended_code is Some && message is Some && details is Some {
                Some(ErrorView {
                    code: code->0,
                    extended_code: extended_code->0,
                    message: message->0,
                    details: details->0,
                })
            } else {
                None
            }
        },
        None => None,
    }
}

fn read_req_i32(f: Option<&Json>) -> (r: Option<i32>)
    ensures
        r == req_i32(opt_view(f)),
{
    match f {
        Some(Json::Number(n)) => match n.int {
            Some(i) => if i32::MIN as i64 <= i && i <= i32::MAX as i64 {
                Some(i as i32)
            } else {
                None
            },
            None => None,
        },
        _ => None,
    }
}

fn read_opt_texts(f: Option<&Json>) -> (r: Option<Option<Vec<String>>>)
    ensures
        match r {
            Some(Some(v)) => opt_texts(opt_view(f)) == Some(Some(v@.map_values(|s: String| s@))),
            Some(None) => opt_texts(opt_view(f)) == Some(None::<Seq<Seq<char>>>),
            None => opt_texts(opt_view(f)) is None,
        },
{
    match f {
        None => Some(None),
        Some(Json::Null) => Some(None),
        Some(Json::Array(items)) => {
            proof {
                lemma_array_views(*items);
            }
            let mut out: Vec<String> = Vec::new();
            let mut i: usize = 0;
            while i < items.len()
                invariant
                    opt_view(f) == Some(JsonView::Array(views(items@))),
                    i <= items@.len(),
                    out@.len() == i,
                    forall|k: int| 0 <= k < i ==> #[trigger] views(items@)[k] is Str && out@[k]@ == views(items@)[k]->Str_0,
                decreases items@.len() - i,
            {
                match &items[i] {
                    Json::Str(s) => out.push(s.clone()),
                    _ => {
                        assert(!(views(items@)[i as int] is Str));
                        assert(texts(views(items@)) is None);
                        return None;
                    },
                }
                i = i + 1;
            }
            assert(out@.map_values(|s: String| s@) =~= Seq::new(items@.len(), |k: int| views(items@)[k]->Str_0));
            Some(Some(out))
        },
        _ => None,
    }
}

/// Decodes an error envelope strictly.
pub fn decode_error(j: &Json) -> (r: Option<ErrorEnvelope>)
    ensures
        match r {
            Some(e) => error_of(j@) == Some(e@),
            None => error_of(j@) is None,
        },
{
    let e = match get_field(j, "error") {
        Some(e) => e,
        None => return None,
    };
    if !e.is_object() {
        return None;
    }
    let code = read_req_i32(get_field(e, "code"));
    let extended_code = read_opt_i32(get_field(e, "extendedCode"));
    let message = read_opt_string(get_field(e, "message"));
    let details = read_opt_texts(get_field(e, "details"));
    match (code, extended_code, message, details) {
        (Some(code), Some(extended_code), Some(message), Some(details)) => Some(
            ErrorEnvelope { code, extended_code, message, details },
        ),
        _ => None,
    }
}

/// The outcome of decoding one response.
#[derive(Debug, PartialEq)]
pub enum Decoded<T> {
    /// The response had the expected shape.
    Parsed(T),
    /// The response was an error envelope.
    ApiError(ErrorEnvelope),
    /// The response was neither.
    Unparsable,
}

pub enum Outcome<V> {
    Parsed(V),
    ApiError(ErrorView),
    Unparsable,
}

impl<T: View> View for Decoded<T> {
    type V = Outcome<T::V>;

    open spec fn view(&self) -> Outcome<T::V> {
        match self {
            Decoded::Parsed(t) => Outcome::Parsed(t@),
            Decoded::ApiError(e) => Outcome::ApiError(e@),
            Decoded::Unparsable => Outcome::Unparsable,
        }
    }
}

/// The outcome of a response that did not have the expected shape.
pub open spec fn fallback_of<V>(j: JsonView) -> Outcome<V> {
    match error_of(j) {
        Some(e) => Outcome::ApiError(e),
        None => Outcome::Unparsable,
    }
}

/// The outcome of a response: `parsed` where the expected shape was decoded,
/// else the error envelope where there is one, else unparsable.
pub open spec fn outcome_of<V>(parsed: Option<V>, j: JsonView) -> Outcome<V> {
    match parsed {
        Some(v) => Outcome::Parsed(v),
        None => fallback_of(j),
    }
}

/// Reads a response that did not have the expected shape as an error
/// envelope, or else as unparsable.
pub fn fallback<T: View>(j: &Json) -> (r: Decoded<T>)
    ensures
        r@ == fallback_of::<T::V>(j@),
{
    match decode_error(j) {
        Some(e) => Decoded::ApiError(e),
        None => Decoded::Unparsable,
    }
}

/// The decimal digits of `n`.
pub open spec fn digits(n: nat) -> Seq<char>
    decreases n,
{
    if n < 10 {
        seq![(n + 48) as char]
    } else {
        digits(n / 10).push(((n % 10) + 48) as char)
    }
}

/// The decimal text of `i`, with a leading minus sign where it is negative.
pub open spec fn decimal(i: int) -> Seq<char> {
    if i < 0 {
        seq!['-'] + digits((-i) as nat)
    } else {
        digits(i as nat)
    }
}

/// The text of one decimal digit.
fn digit_text(d: u64) -> (r: &'static str)
    requires
        d < 10,
    ensures
        r@ == seq![(d + 48) as char],
{
    proof {
        reveal_strlit("0");
        reveal_strlit("1");
        reveal_strlit("2");
        reveal_strlit("3");
        reveal_strlit("4");
        reveal_strlit("5");
        reveal_strlit("6");
        reveal_strlit("7");
        reveal_strlit("8");
        reveal_strlit("9");
    }
    if d == 0 {
        "0"
    } else if d == 1 {
        "1"
    } else if d == 2 {
        "2"
    } else if d == 3 {
        "3"
    } else if d == 4 {
        "4"
    } else if d == 5 {
        "5"
    } else if d == 6 {
        "6"
    } else if d == 7 {
        "7"
    } else if d == 8 {
        "8"
    } else {
        "9"
    }
}

/// The decimal digits of `n`.
pub fn digits_text(n: u64) -> (r: String)
    ensures
        r@ == digits(n as nat),
    decreases n,
{
    if n < 10 {
        String::from_str(digit_text(n))
    } else {
        let mut s = digits_text(n / 10);
        s.append(digit_text(n % 10));
        assert(s@ =~= digits(n as nat));
        s
    }
}

/// The decimal text of `i`, with a leading minus sign where it is negative.
pub fn decimal_text(i: i32) -> (r: String)
    ensures
        r@ == decimal(i as int),
{
    if i < 0 {
        proof {
            reveal_strlit("-");
        }
        let mut s = String::from_str("-");
        let m: i64 = -(i as i64);
        s.append(digits_text(m as u64).as_str());
        assert(s@ =~= decimal(i as int));
        s
    } else {
        digits_text(i as u64)
    }
}

/// The texts of `items` joined with single spaces.
pub open spec fn joined(items: Seq<Seq<char>>) -> Seq<char>
    decreases items.len(),
{
    if items.len() == 0 {
        Seq::empty()
    } else if items.len() == 1 {
        items[0]
    } else {
        joined(items.drop_last()) + " "@ + items.last()
    }
}

/// The diagnostic for an error envelope: its code, its message and its
/// details joined by spaces.
pub open spec fn api_message(e: ErrorView) -> Seq<char> {
    "Error occured parsing response:\n"@ + decimal(e.code as int) + ": "@ + match e.message {
        Some(m) => m,
        None => Seq::empty(),
    } + " "@ + match e.details {
        Some(d) => joined(d),
        None => Seq::empty(),
    }
}

/// The diagnostic for a response that could not be decoded at all.
pub open spec fn unparsable_message() -> Seq<char> {
    "Error occured parsing : unexpected response shape"@
}

fn join_texts(items: &Vec<String>) -> (r: String)
    ensures
        r@ == joined(items@.map_values(|s: String| s@)),
{
    let ghost v = items@.map_values(|s: String| s@);
    let mut out = String::new();
    let mut i: usize = 0;
    while i < items.len()
        invariant
            i <= items@.len(),
            v == items@.map_values(|s: String| s@),
            out@ == joined(v.subrange(0, i as int)),
        decreases items@.len() - i,
    {
        if i > 0 {
            out.append(" ");
        }
        out.append(items[i].as_str());
        proof {
            let s = v.subrange(0, i + 1);
            assert(s.drop_last() =~= v.subrange(0, i as int));
            if i == 0 {
                assert(out@ =~= s[0]);
            }
        }
        i = i + 1;
    }
    assert(v.subrange(0, items@.len() as int) =~= v);
    out
}

impl ErrorEnvelope {
    /// The diagnostic for this error: its code, its message and its details.
    pub fn message_text(&self) -> (r: String)
        ensures
            r@ == api_message(self@),
    {
        let mut out = String::from_str("Error occured parsing response:\n");
        out.append(decimal_text(self.code).as_str());
        out.append(": ");
        match &self.message {
            Some(m) => out.append(m.as_str()),
            None => {},
        }
        out.append(" ");
        match &self.details {
            Some(d) => out.append(join_texts(d).as_str()),
            None => {},
        }
        assert(out@ =~= api_message(self@));
        out
    }
}

impl<T: View> Decoded<T> {
    /// The diagnostic of a failed decode; none where the response was decoded.
    pub fn diagnostic(&self) -> (r: Option<String>)
        ensures
            match self@ {
                Outcome::Parsed(_) => r is None,
                Outcome::ApiError(e) => r is Some && r->0@ == api_message(e),
                Outcome::Unparsable => r is Some && r->0@ == unparsable_message(),
            },
    {
        match self {
            Decoded::Parsed(_) => None,
            Decoded::ApiError(e) => Some(e.message_text()),
            Decoded::Unparsable => Some(String::from_str("Error occured parsing : unexpected response shape")),
        }
    }

    /// Whether the response was decoded.
    pub fn is_parsed(&self) -> (r: bool)
        ensures
            r == (self@ is Parsed),
    {
        match self {
            Decoded::Parsed(_) => true,
            _ => false,
        }
    }
}

} // verus!
