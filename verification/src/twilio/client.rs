//! The client of Twilio's message API: the request it posts and how it
//! reads the answer. The HTTP exchange is made by the caller.
use vstd::prelude::*;
use vstd::string::*;
use crate::twilio::dto::SendMessageRequest;
use base64::Engine;

verus! {

/// The character of a six-bit value in the standard base64 alphabet.
pub open spec fn base64_char(v: nat) -> char {
    if v < 26 {
        (65 + v) as char
    } else if v < 52 {
        (97 + v - 26) as char
    } else if v < 62 {
        (48 + v - 52) as char
    } else if v == 62 {
        '+'
    } else {
        '/'
    }
}

/// Standard base64 with `=` padding: each group of three bytes becomes
/// four characters; a last group of one or two bytes is padded.
pub open spec fn base64_standard(b: Seq<u8>) -> Seq<char>
    decreases b.len(),
{
    if b.len() == 0 {
        seq![]
    } else if b.len() == 1 {
        seq![base64_char((b[0] / 4) as nat), base64_char(((b[0] % 4) * 16) as nat), '=', '=']
    } else if b.len() == 2 {
        seq![base64_char((b[0] / 4) as nat), base64_char(((b[0] % 4) * 16 + b[1] / 16) as nat),
            base64_char(((b[1] % 16) * 4) as nat), '=']
    } else {
        seq![base64_char((b[0] / 4) as nat), base64_char(((b[0] % 4) * 16 + b[1] / 16) as nat),
            base64_char(((b[1] % 16) * 4 + b[2] / 64) as nat), base64_char((b[2] % 64) as nat)]
            + base64_standard(b.skip(3))
    }
}

/// `base64::engine::general_purpose::STANDARD.encode` of the UTF-8 bytes
/// of `s`: standard base64 with padding.
#[verifier::external_body]
fn base64_encode(s: &str) -> (r: String)
    ensures
        r@ == base64_standard(s.spec_bytes()),
{
    base64::engine::general_purpose::STANDARD.encode(s)
}

/// The account credentials and sender number of the Twilio client.
pub struct TwilioClient {
    account_sid: String,
    auth_token: String,
    from_number: String,
}

/// A request to Twilio: the URL to post to, the `Authorization` header
/// and the form.
pub struct OutgoingRequest {
    pub url: String,
    pub authorization: String,
    pub form: SendMessageRequest,
}

/// What sending asks for next, or its outcome.
pub enum DeliveryStep {
    /// Read the body of the refusal.
    ReadErrorBody,
    /// The outcome: sent, or why not.
    Done(Result<(), String>),
}

/// The URL of the account's message API.
pub open spec fn messages_url(account_sid: Seq<char>) -> Seq<char> {
    "https://api.twilio.com/2010-04-01/Accounts/"@ + account_sid + "/Messages.json"@
}

/// The basic-authentication header of the account.
pub open spec fn basic_auth(account_sid: Seq<char>, auth_token: Seq<char>) -> Seq<char> {
    "Basic "@ + base64_standard(crate::text::utf8_bytes(account_sid + ":"@ + auth_token))
}

impl TwilioClient {
    pub closed spec fn spec_account_sid(&self) -> Seq<char> {
        self.account_sid@
    }

    pub closed spec fn spec_auth_token(&self) -> Seq<char> {
        self.auth_token@
    }

    pub closed spec fn spec_from_number(&self) -> Seq<char> {
        self.from_number@
    }

    /// A client from the values of `TWILIO_ACCOUNT_SID`,
    /// `TWILIO_AUTH_TOKEN` and `TWILIO_FROM_NUMBER`, read in that order:
    /// the first that could not be read gives its reason.
    pub fn new(account_sid: Result<String, String>, auth_token: Result<String, String>, from_number: Result<String, String>) -> (r: Result<TwilioClient, String>)
        ensures
            account_sid matches Err(e) ==> r matches Err(m) && m@ == e@,
            account_sid is Ok ==> (auth_token matches Err(e) ==> r matches Err(m) && m@ == e@),
            account_sid is Ok && auth_token is Ok ==> (from_number matches Err(e) ==> r matches Err(m) && m@ == e@),
            account_sid is Ok && auth_token is Ok && from_number is Ok ==> r is Ok,
            r matches Ok(c) ==> (account_sid matches Ok(a) && auth_token matches Ok(t) && from_number matches Ok(f)
                && c.spec_account_sid() == a@ && c.spec_auth_token() == t@ && c.spec_from_number() == f@),
    {
        let account_sid = match account_sid {
            Err(e) => return Err(e),
            Ok(v) => v,
        };
        let auth_token = match auth_token {
            Err(e) => return Err(e),
            Ok(v) => v,
        };
        let from_number = match from_number {
            Err(e) => return Err(e),
            Ok(v) => v,
        };
        Ok(TwilioClient { account_sid, auth_token, from_number })
    }

    /// The request that sends `body` to `to` from the account's number.
    pub fn send_message(&self, to: String, body: String) -> (r: OutgoingRequest)
        ensures
            r.url@ == messages_url(self.spec_account_sid()),
            r.authorization@ == basic_auth(self.spec_account_sid(), self.spec_auth_token()),
            r.form.to@ == to@ && r.form.from@ == self.spec_from_number() && r.form.body@ == body@,
    {
        let mut url = String::from_str("https://api.twilio.com/2010-04-01/Accounts/");
        url.append(self.account_sid.as_str());
        url.append("/Messages.json");
        let mut auth = self.account_sid.clone();
        auth.append(":");
        auth.append(self.auth_token.as_str());
        let encoded = base64_encode(auth.as_str());
        let mut authorization = String::from_str("Basic ");
        authorization.append(encoded.as_str());
        OutgoingRequest {
            url,
            authorization,
            form: SendMessageRequest { to, from: self.from_number.clone(), body },
        }
    }
}

/// Whether an HTTP status code is a success (2xx).
pub open spec fn success_status(code: u16) -> bool {
    200 <= code && code <= 299
}

/// Whether an HTTP status code is a success (2xx), as `StatusCode::is_success`.
pub fn is_success_status(code: u16) -> (r: bool)
    ensures
        r == success_status(code),
{
    200 <= code && code <= 299
}

/// After the post, given the status code of the answer: a failed exchange
/// is the outcome; a 2xx status means sent; any other status asks for the
/// body of the refusal.
pub fn after_post(posted: Result<u16, String>) -> (r: DeliveryStep)
    ensures
        posted matches Err(e) ==> (r matches DeliveryStep::Done(Err(m)) && m@ == e@),
        posted matches Ok(code) ==> (if success_status(code) { r matches DeliveryStep::Done(Ok(_)) } else { r is ReadErrorBody }),
{
    match posted {
        Err(e) => DeliveryStep::Done(Err(e)),
        Ok(code) => if is_success_status(code) {
            DeliveryStep::Done(Ok(()))
        } else {
            DeliveryStep::ReadErrorBody
        },
    }
}

/// After reading the body of a refusal: the sending failed, with the body
/// in the message, or with the reading's own error.
pub fn after_error_body(body: Result<String, String>) -> (r: Result<(), String>)
    ensures
        body matches Err(e) ==> (r matches Err(m) && m@ == e@),
        body matches Ok(t) ==> (r matches Err(m) && m@ == "Failed to send message: "@ + t@),
{
    match body {
        Err(e) => Err(e),
        Ok(t) => {
            let mut m = String::from_str("Failed to send message: ");
            m.append(t.as_str());
            Err(m)
        },
    }
}

} // verus!
