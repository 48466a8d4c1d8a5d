//! A plain model of what the handlers send back: a status, headers in the
//! order they are set, and a body; and of the errors that a handler or a
//! middleware raises in place of a response.
use vstd::prelude::*;
use vstd::string::*;

verus! {

/// One response header.
pub struct Header {
    pub name: String,
    pub value: String,
}

/// A response: status code, headers in the order they were added, body.
pub struct Reply {
    pub status: u16,
    pub headers: Vec<Header>,
    pub body: String,
}

/// An error raised in place of a response: a status code, with a message
/// when the error carries one (`Error::from_string`) and without one when
/// it carries only the status (`Error::from_status`).
pub struct HttpError {
    pub status: u16,
    pub message: Option<String>,
}

/// The mathematical value of a reply.
pub struct ReplyView {
    pub status: u16,
    pub headers: Seq<(Seq<char>, Seq<char>)>,
    pub body: Seq<char>,
}

impl View for Header {
    type V = (Seq<char>, Seq<char>);

    open spec fn view(&self) -> (Seq<char>, Seq<char>) {
        (self.name@, self.value@)
    }
}

impl View for Reply {
    type V = ReplyView;

    open spec fn view(&self) -> ReplyView {
        ReplyView {
            status: self.status,
            headers: self.headers@.map_values(|h: Header| h@),
            body: self.body@,
        }
    }
}

impl View for HttpError {
    type V = (u16, Option<Seq<char>>);

    open spec fn view(&self) -> (u16, Option<Seq<char>>) {
        (
            self.status,
            match self.message {
                Some(m) => Some(m@),
                None => None,
            },
        )
    }
}

pub const OK: u16 = 200;
pub const NO_CONTENT: u16 = 204;
pub const FOUND: u16 = 302;
pub const BAD_REQUEST: u16 = 400;
pub const UNAUTHORIZED: u16 = 401;
pub const CONFLICT: u16 = 409;
pub const INTERNAL_SERVER_ERROR: u16 = 500;

/// A header built from two string slices.
pub fn header(name: &str, value: &str) -> (h: Header)
    ensures
        h@ == (name@, value@),
{
    Header { name: String::from_str(name), value: String::from_str(value) }
}

/// A header whose value is an owned string.
pub fn header_owned(name: &str, value: String) -> (h: Header)
    ensures
        h@ == (name@, value@),
{
    Header { name: String::from_str(name), value }
}

/// An error that carries only a status code.
pub fn status_error(status: u16) -> (e: HttpError)
    ensures
        e@ == (status, None::<Seq<char>>),
{
    HttpError { status, message: None }
}

/// An error that carries a status code and a message.
pub fn message_error(status: u16, message: String) -> (e: HttpError)
    ensures
        e@ == (status, Some(message@)),
{
    HttpError { status, message: Some(message) }
}

/// The bytes that `HeaderValue::to_str` lets through: visible ASCII and tab.
pub open spec fn is_visible_ascii(b: u8) -> bool {
    (32 <= b && b < 127) || b == 9
}

/// The characters of ASCII bytes.
pub open spec fn ascii_chars(bytes: Seq<u8>) -> Seq<char> {
    bytes.map_values(|b: u8| b as char)
}

/// The text of a header value, as `HeaderValue::to_str` gives it: the
/// bytes read as characters when each is visible ASCII or a tab, and
/// nothing otherwise.
pub fn header_text(bytes: &[u8]) -> (r: Option<String>)
    ensures
        r is Some <==> (forall|i: int| 0 <= i < bytes@.len() ==> is_visible_ascii(#[trigger] bytes@[i])),
        r matches Some(t) ==> t@ == ascii_chars(bytes@),
{
    let mut out = String::new();
    let mut i: usize = 0;
    while i < bytes.len()
        invariant
            i <= bytes@.len(),
            forall|j: int| 0 <= j < i ==> is_visible_ascii(#[trigger] bytes@[j]),
            out@ == ascii_chars(bytes@.take(i as int)),
        decreases bytes@.len() - i,
    {
        let b = bytes[i];
        if !((32 <= b && b < 127) || b == 9) {
            return None;
        }
        out.push(b as char);
        i = i + 1;
        assert(ascii_chars(bytes@.take(i as int)) =~= ascii_chars(bytes@.take(i - 1)).push(b as char));
    }
    assert(bytes@.take(i as int) =~= bytes@);
    Some(out)
}

} // verus!
