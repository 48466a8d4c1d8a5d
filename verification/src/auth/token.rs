//! Issuing and checking the HS256 session tokens that the login handlers
//! put in the `token` cookie and that the guards read back.
use vstd::prelude::*;
use vstd::string::*;
use crate::auth::dto::{claims_json, Claims};
use crate::json::{decimal, json_quoted};

verus! {

/// Why a token could not be issued or accepted.
pub enum JwtError {
    /// The secret could not be read from the environment; the text says why.
    MissingEnv(String),
    /// The token library refused the token; the text is its message.
    InvalidToken(String),
}

/// The mathematical value of a `JwtError`.
pub enum JwtErrorView {
    MissingEnv(Seq<char>),
    InvalidToken(Seq<char>),
}

impl View for JwtError {
    type V = JwtErrorView;

    open spec fn view(&self) -> JwtErrorView {
        match self {
            JwtError::MissingEnv(e) => JwtErrorView::MissingEnv(e@),
            JwtError::InvalidToken(e) => JwtErrorView::InvalidToken(e@),
        }
    }
}

/// How a `JwtError` is displayed.
pub open spec fn jwt_error_text(e: JwtErrorView) -> Seq<char> {
    match e {
        JwtErrorView::MissingEnv(m) => "Missing environment variable: "@ + m,
        JwtErrorView::InvalidToken(m) => "Invalid token: "@ + m,
    }
}

impl JwtError {
    /// The displayed text of the error.
    pub fn to_display(&self) -> (r: String)
        ensures
            r@ == jwt_error_text(self@),
    {
        match self {
            JwtError::MissingEnv(m) => {
                let mut out = String::from_str("Missing environment variable: ");
                out.append(m.as_str());
                out
            },
            JwtError::InvalidToken(m) => {
                let mut out = String::from_str("Invalid token: ");
                out.append(m.as_str());
                out
            },
        }
    }
}

/// The view of a result whose both sides are strings.
pub open spec fn text_result(r: Result<String, String>) -> Result<Seq<char>, Seq<char>> {
    match r {
        Ok(t) => Ok(t@),
        Err(e) => Err(e@),
    }
}

/// What `jsonwebtoken::encode` gives for the default header (HS256, typ
/// JWT), the JSON text `payload` as the claims and `secret` as the HMAC
/// key: the token, or the library's error message.
pub uninterp spec fn jwt_hs256_encoded(payload: Seq<char>, secret: Seq<char>) -> Result<Seq<char>, Seq<char>>;

/// Whether `token` is an HS256 token whose signature checks out under the
/// HMAC key of the bytes of `secret`: the signature part is the HMAC-SHA256
/// of the header and payload parts under that key.
pub uninterp spec fn hs256_signed(token: Seq<char>, secret: Seq<char>) -> bool;

/// Whether `token` has the shape of a JWT as far as the token library
/// splits it: at least two `.` characters.
pub open spec fn jwt_shaped(token: Seq<char>) -> bool {
    exists|i: int, j: int| 0 <= i < j < token.len() && token[i] == '.' && token[j] == '.'
}

/// Calls `jsonwebtoken::encode` with `Header::default()`, the HMAC key of
/// the bytes of `secret`, and as claims the JSON text `payload`, which
/// `serde_json::value::RawValue::from_string` wraps so that it is written
/// into the token as it stands. The contract names the result, says that
/// a token it made is signed with `secret`, and says that it makes one for
/// the compact JSON of claims: that text is valid JSON, so the wrapping
/// succeeds, and HS256 signing with any key cannot fail.
#[verifier::external_body]
fn jwt_encode_hs256(payload: &str, secret: &str) -> (r: Result<String, String>)
    ensures
        text_result(r) == jwt_hs256_encoded(payload@, secret@),
        r matches Ok(t) ==> hs256_signed(t@, secret@),
        r is Err ==> forall|sub: Seq<char>, exp: nat| exp <= usize::MAX ==> payload@ != #[trigger] claims_json(sub, exp),
{
    let raw = serde_json::value::RawValue::from_string(payload.to_string()).map_err(|e| e.to_string())?;
    let key = jsonwebtoken::EncodingKey::from_secret(secret.as_bytes());
    jsonwebtoken::encode(&jsonwebtoken::Header::default(), &raw, &key).map_err(|e| e.to_string())
}

/// What `jsonwebtoken::decode` gives for `token` with the HMAC key of the
/// bytes of `secret`, HS256 allowed, and neither expiry nor any claim's
/// presence checked, the claims read as a map from field names to their
/// raw JSON text in the map's order: those fields, or the library's error
/// message.
pub uninterp spec fn hs256_decoded(token: Seq<char>, secret: Seq<char>) -> Result<Seq<(Seq<char>, Seq<char>)>, Seq<char>>;

/// Whether the answer `d` for `token` and `secret` is the fields of the
/// claims that `token` was issued for, when `encode` issued it from the
/// compact JSON of claims with this secret.
pub open spec fn decodes_issued(token: Seq<char>, secret: Seq<char>, d: Result<Seq<(Seq<char>, Seq<char>)>, Seq<char>>) -> bool {
    forall|sub: Seq<char>, exp: usize|
        #[trigger] jwt_hs256_encoded(claims_json(sub, exp as nat), secret) == Ok::<Seq<char>, Seq<char>>(token)
            ==> d == Ok::<Seq<(Seq<char>, Seq<char>)>, Seq<char>>(claims_fields(sub, exp))
}

/// Calls `jsonwebtoken::decode` with the HMAC key of the bytes of `secret`
/// and `Validation::new(Algorithm::HS256)` with the expiry check off and
/// no claim required, so that the answer does not depend on the clock;
/// the contract names it. It also says what holds of every token that
/// passes: it was split into header, payload and signature at two `.`
/// characters, and its signature checked out under `secret`. And of a
/// token that `encode` made from the compact JSON of claims with the same
/// secret: it passes, and the map holds the two fields of those claims,
/// `exp` before `sub` as the map orders its keys, each with its text as
/// written in the payload.
#[verifier::external_body]
pub(crate) fn jwt_decode_hs256(token: &str, secret: &str) -> (r: Result<Vec<(String, String)>, String>)
    ensures
        decoded_view(r) == hs256_decoded(token@, secret@),
        r is Ok ==> jwt_shaped(token@) && hs256_signed(token@, secret@),
        decodes_issued(token@, secret@, decoded_view(r)),
{
    let mut validation = jsonwebtoken::Validation::new(jsonwebtoken::Algorithm::HS256);
    validation.validate_exp = false;
    validation.required_spec_claims.clear();
    let key = jsonwebtoken::DecodingKey::from_secret(secret.as_bytes());
    jsonwebtoken::decode::<std::collections::BTreeMap<String, Box<serde_json::value::RawValue>>>(token, &key, &validation)
        .map(|data| data.claims.into_iter().map(|(k, v)| (k, v.get().to_string())).collect())
        .map_err(|e| e.to_string())
}

/// What `serde_json::from_str::<String>` gives for the JSON text: the
/// string, or the error message.
pub uninterp spec fn json_string_parse(text: Seq<char>) -> Result<Seq<char>, Seq<char>>;

/// What `serde_json::from_str::<usize>` gives for the JSON text: the
/// number, or the error message.
pub uninterp spec fn json_usize_parse(text: Seq<char>) -> Result<usize, Seq<char>>;

/// Whether `res` is `s` whenever `text` is the literal of `s`.
pub open spec fn reads_back_quoted(text: Seq<char>, res: Result<Seq<char>, Seq<char>>) -> bool {
    forall|s: Seq<char>| text == #[trigger] json_quoted(s) ==> res == Ok::<Seq<char>, Seq<char>>(s)
}

/// Whether `res` is `n` whenever `text` is the decimal notation of `n`.
pub open spec fn reads_back_decimal(text: Seq<char>, res: Result<usize, String>) -> bool {
    forall|n: usize| text == #[trigger] decimal(n as nat) ==> res == Ok::<usize, String>(n)
}

/// Calls `serde_json::from_str::<String>`; the contract names the result,
/// and says that the string literal `serde_json` writes for a string reads
/// back as that string.
#[verifier::external_body]
fn parse_json_string(text: &str) -> (r: Result<String, String>)
    ensures
        text_result(r) == json_string_parse(text@),
        reads_back_quoted(text@, text_result(r)),
{
    serde_json::from_str::<String>(text).map_err(|e| e.to_string())
}

/// Calls `serde_json::from_str::<usize>`; the contract names the result,
/// and says that the decimal notation of a `usize` reads back as it.
#[verifier::external_body]
fn parse_json_usize(text: &str) -> (r: Result<usize, String>)
    ensures
        match r {
            Ok(n) => json_usize_parse(text@) == Ok::<usize, Seq<char>>(n),
            Err(e) => json_usize_parse(text@) == Err::<usize, Seq<char>>(e@),
        },
        reads_back_decimal(text@, r),
{
    serde_json::from_str::<usize>(text).map_err(|e| e.to_string())
}

/// The fields of the compact JSON of claims, in the order of a sorted map.
pub open spec fn claims_fields(sub: Seq<char>, exp: usize) -> Seq<(Seq<char>, Seq<char>)> {
    seq![("exp"@, decimal(exp as nat)), ("sub"@, json_quoted(sub))]
}

/// The view of a list of (field name, raw JSON text) pairs.
pub open spec fn fields_view(fields: Seq<(String, String)>) -> Seq<(Seq<char>, Seq<char>)> {
    fields.map_values(|f: (String, String)| (f.0@, f.1@))
}

/// The raw text of the first field called `key`.
pub open spec fn field_value(fields: Seq<(Seq<char>, Seq<char>)>, key: Seq<char>) -> Option<Seq<char>>
    decreases fields.len(),
{
    if fields.len() == 0 {
        None
    } else if fields[0].0 == key {
        Some(fields[0].1)
    } else {
        field_value(fields.drop_first(), key)
    }
}

/// The claims that the fields of a token hold: `sub` read as a JSON
/// string and `exp` as an unsigned number; a missing or ill-typed field
/// gives an error message.
pub open spec fn claims_of_fields(fields: Seq<(Seq<char>, Seq<char>)>) -> Result<(Seq<char>, usize), Seq<char>> {
    match field_value(fields, "sub"@) {
        None => Err("missing field `sub`"@),
        Some(sub_text) => match json_string_parse(sub_text) {
            Err(m) => Err(m),
            Ok(sub) => match field_value(fields, "exp"@) {
                None => Err("missing field `exp`"@),
                Some(exp_text) => match json_usize_parse(exp_text) {
                    Err(m) => Err(m),
                    Ok(exp) => Ok((sub, exp)),
                },
            },
        },
    }
}

fn find_field(fields: &Vec<(String, String)>, key: &str) -> (r: Option<usize>)
    ensures
        match r {
            Some(i) => i < fields@.len() && field_value(fields_view(fields@), key@) == Some(fields@[i as int].1@),
            None => field_value(fields_view(fields@), key@) is None,
        },
{
    let key_s = String::from_str(key);
    let mut i: usize = 0;
    assert(fields_view(fields@).skip(0) =~= fields_view(fields@));
    while i < fields.len()
        invariant
            i <= fields@.len(),
            key_s@ == key@,
            field_value(fields_view(fields@), key@) == field_value(fields_view(fields@).skip(i as int), key@),
        decreases fields@.len() - i,
    {
        let ghost rest = fields_view(fields@).skip(i as int);
        assert(rest[0] == (fields@[i as int].0@, fields@[i as int].1@));
        if fields[i].0 == key_s {
            return Some(i);
        }
        assert(rest.drop_first() =~= fields_view(fields@).skip(i + 1));
        i = i + 1;
    }
    None
}

/// The view of the result of reading claims.
pub open spec fn claims_result(r: Result<Claims, String>) -> Result<(Seq<char>, usize), Seq<char>> {
    match r {
        Ok(c) => Ok(c@),
        Err(e) => Err(e@),
    }
}

/// Looking up the two fields of the JSON of claims.
proof fn lemma_claims_fields_lookup(sub: Seq<char>, exp: usize)
    ensures
        field_value(claims_fields(sub, exp), "sub"@) == Some(json_quoted(sub)),
        field_value(claims_fields(sub, exp), "exp"@) == Some(decimal(exp as nat)),
{
    reveal_strlit("exp");
    reveal_strlit("sub");
    let f = claims_fields(sub, exp);
    assert("exp"@[0] != "sub"@[0]);
    assert(f.drop_first()[0] == ("sub"@, json_quoted(sub)));
    assert(field_value(f.drop_first(), "sub"@) == Some(json_quoted(sub)));
    assert(f[0].0 != "sub"@);
}

/// Reads the claims out of the fields of a decoded token. The fields of
/// the JSON of claims read back as those claims.
pub fn claims_from_fields(fields: &Vec<(String, String)>) -> (r: Result<Claims, String>)
    ensures
        claims_result(r) == claims_of_fields(fields_view(fields@)),
        forall|sub: Seq<char>, exp: usize| fields_view(fields@) == #[trigger] claims_fields(sub, exp)
            ==> claims_result(r) == Ok::<(Seq<char>, usize), Seq<char>>((sub, exp)),
{
    proof {
        assert(fields_view(fields@).skip(0) =~= fields_view(fields@));
    }
    let ghost fv = fields_view(fields@);
    let r = match find_field(fields, "sub") {
        None => Err(String::from_str("missing field `sub`")),
        Some(i) => match parse_json_string(fields[i].1.as_str()) {
            Err(m) => Err(m),
            Ok(sub) => match find_field(fields, "exp") {
                None => Err(String::from_str("missing field `exp`")),
                Some(j) => match parse_json_usize(fields[j].1.as_str()) {
                    Err(m) => Err(m),
                    Ok(exp) => Ok(Claims { sub, exp }),
                },
            },
        },
    };
    proof {
        assert forall|sub: Seq<char>, exp: usize| fv == #[trigger] claims_fields(sub, exp)
            implies claims_result(r) == Ok::<(Seq<char>, usize), Seq<char>>((sub, exp)) by {
            lemma_claims_fields_lookup(sub, exp);
        }
    }
    r
}

/// The view of the secret as read from the environment: the secret, or
/// the reason it could not be read.
pub open spec fn secret_view(s: Result<String, String>) -> Result<Seq<char>, Seq<char>> {
    text_result(s)
}

/// The view of the result of issuing a token.
pub open spec fn token_result(r: Result<String, JwtError>) -> Result<Seq<char>, JwtErrorView> {
    match r {
        Ok(t) => Ok(t@),
        Err(e) => Err(e@),
    }
}

/// What issuing a token for `claims` gives with the secret lookup `secret`.
pub open spec fn generated_token(claims: (Seq<char>, usize), secret: Result<Seq<char>, Seq<char>>) -> Result<Seq<char>, JwtErrorView> {
    match secret {
        Err(e) => Err(JwtErrorView::MissingEnv(e)),
        Ok(s) => match jwt_hs256_encoded(claims_json(claims.0, claims.1 as nat), s) {
            Ok(t) => Ok(t),
            Err(m) => Err(JwtErrorView::InvalidToken(m)),
        },
    }
}

/// Issues a session token for `claims`, signed with the secret that was
/// read from `JWT_SECRET` (or the reason it could not be read).
pub fn generate_token(claims: &Claims, jwt_secret: &Result<String, String>) -> (r: Result<String, JwtError>)
    ensures
        token_result(r) == generated_token(claims@, secret_view(*jwt_secret)),
        r matches Ok(t) ==> (jwt_secret matches Ok(s) && hs256_signed(t@, s@)),
        jwt_secret is Ok ==> r is Ok,
{
    let secret = match jwt_secret {
        Err(e) => return Err(JwtError::MissingEnv(e.clone())),
        Ok(s) => s,
    };
    let payload = claims.to_json();
    match jwt_encode_hs256(payload.as_str(), secret.as_str()) {
        Ok(t) => Ok(t),
        Err(m) => Err(JwtError::InvalidToken(m)),
    }
}

/// The leeway, in seconds, that `validate_token` allows past expiry.
pub const VALIDATION_LEEWAY: u64 = 120;

/// The view of the result of checking a token.
pub open spec fn check_result(r: Result<Claims, JwtError>) -> Result<(Seq<char>, usize), JwtErrorView> {
    match r {
        Ok(c) => Ok(c@),
        Err(e) => Err(e@),
    }
}

/// The view of what the token library answered.
pub open spec fn decoded_view(d: Result<Vec<(String, String)>, String>) -> Result<Seq<(Seq<char>, Seq<char>)>, Seq<char>> {
    match d {
        Ok(f) => Ok(fields_view(f@)),
        Err(m) => Err(m@),
    }
}

/// The current time in whole seconds since the Unix epoch, read as the
/// token library reads it (`jsonwebtoken::get_current_timestamp`). It
/// depends on the clock, so nothing is claimed of it.
#[verifier::external_body]
pub(crate) fn current_timestamp() -> (r: u64) {
    jsonwebtoken::get_current_timestamp()
}

/// Whether claims that expire at `exp` have expired at `now`, with
/// `leeway` seconds of grace: the token library refuses them when `exp`
/// is below `now - leeway`.
pub open spec fn expired(exp: usize, now: u64, leeway: u64) -> bool {
    (exp as int) < (now as int) - (leeway as int)
}

/// The token library's message for expired claims.
pub open spec fn expired_text() -> Seq<char> {
    "ExpiredSignature"@
}

/// What checking `token` with `secret` gives at `now`: the library's error
/// when it does not decode the token; otherwise the claims of its fields,
/// where a missing or ill-typed field is a JSON error; and for claims that
/// have expired at `now`, the expiry error.
pub open spec fn token_check(token: Seq<char>, secret: Seq<char>, now: u64, leeway: u64) -> Result<(Seq<char>, usize), Seq<char>> {
    match hs256_decoded(token, secret) {
        Err(m) => Err(m),
        Ok(fields) => match claims_of_fields(fields) {
            Err(m) => Err("JSON error: "@ + m),
            Ok(c) => if expired(c.1, now, leeway) {
                Err(expired_text())
            } else {
                Ok(c)
            },
        },
    }
}

/// What checking gives with the secret lookup `secret`: `MissingEnv` with
/// its reason when the secret could not be read, otherwise the claims of
/// `token_check` or `InvalidToken` with its message.
pub open spec fn validated(token: Seq<char>, secret: Result<Seq<char>, Seq<char>>, now: u64, leeway: u64) -> Result<(Seq<char>, usize), JwtErrorView> {
    match secret {
        Err(e) => Err(JwtErrorView::MissingEnv(e)),
        Ok(s) => match token_check(token, s, now, leeway) {
            Ok(c) => Ok(c),
            Err(m) => Err(JwtErrorView::InvalidToken(m)),
        },
    }
}

/// Whether issued tokens are checked as they should be: a token that
/// `generate_token` issued for claims `c` with this secret lookup gives
/// back `c` until it expires, and the expiry error after.
pub open spec fn issued_checks(token: Seq<char>, secret: Result<Seq<char>, Seq<char>>, now: u64, leeway: u64, res: Result<(Seq<char>, usize), JwtErrorView>) -> bool {
    forall|c: (Seq<char>, usize)| #[trigger] generated_token(c, secret) == Ok::<Seq<char>, JwtErrorView>(token)
        ==> res == (if expired(c.1, now, leeway) {
            Err::<(Seq<char>, usize), JwtErrorView>(JwtErrorView::InvalidToken(expired_text()))
        } else {
            Ok::<(Seq<char>, usize), JwtErrorView>(c)
        })
}

/// Whether a token that the key `secret` is known for is signed with it:
/// the secret was read, and the token has the shape of a JWT and a
/// signature that checks out under it.
pub open spec fn signed_with(token: Seq<char>, secret: Result<Seq<char>, Seq<char>>) -> bool {
    secret matches Ok(s) && jwt_shaped(token) && hs256_signed(token, s)
}

/// What checking a token at `now` with `leeway` gives: exactly `validated`;
/// an issued token is accepted until it expires; an accepted token is
/// signed with the secret.
pub open spec fn validation_outcome(token: Seq<char>, secret: Result<Seq<char>, Seq<char>>, now: u64, leeway: u64, res: Result<(Seq<char>, usize), JwtErrorView>) -> bool {
    &&& res == validated(token, secret, now, leeway)
    &&& issued_checks(token, secret, now, leeway, res)
    &&& (res is Ok ==> signed_with(token, secret))
}

/// Checks `token` with `secret` at the instant `now`, allowing `leeway`
/// seconds past expiry: the token library's decode, the claims of its
/// fields, then the expiry.
pub fn check_token_at(token: &str, secret: &str, now: u64, leeway: u64) -> (r: Result<Claims, String>)
    ensures
        claims_result(r) == token_check(token@, secret@, now, leeway),
        r is Ok ==> jwt_shaped(token@) && hs256_signed(token@, secret@),
        forall|c: (Seq<char>, usize)| #[trigger] generated_token(c, Ok(secret@)) == Ok::<Seq<char>, JwtErrorView>(token@)
            ==> claims_result(r) == (if expired(c.1, now, leeway) {
                Err::<(Seq<char>, usize), Seq<char>>(expired_text())
            } else {
                Ok::<(Seq<char>, usize), Seq<char>>(c)
            }),
{
    let decoded = jwt_decode_hs256(token, secret);
    let ghost d = decoded_view(decoded);
    let fields = match decoded {
        Err(m) => return Err(m),
        Ok(f) => f,
    };
    let claims = match claims_from_fields(&fields) {
        Err(m) => {
            let mut t = String::from_str("JSON error: ");
            t.append(m.as_str());
            return Err(t);
        },
        Ok(c) => c,
    };
    proof {
        reveal_strlit("ExpiredSignature");
        assert forall|c: (Seq<char>, usize)| #[trigger] generated_token(c, Ok(secret@)) == Ok::<Seq<char>, JwtErrorView>(token@)
            implies claims@ == c by {
            assert(jwt_hs256_encoded(claims_json(c.0, c.1 as nat), secret@) == Ok::<Seq<char>, Seq<char>>(token@));
            assert(d == Ok::<Seq<(Seq<char>, Seq<char>)>, Seq<char>>(claims_fields(c.0, c.1)));
        }
    }
    if (claims.exp as u128) + (leeway as u128) < (now as u128) {
        Err(String::from_str("ExpiredSignature"))
    } else {
        Ok(claims)
    }
}

/// Checks a session token at the instant `now` with the secret lookup
/// `jwt_secret` and a leeway of two minutes past expiry, as
/// `validation_outcome` says.
pub fn validate_token_at(token: &str, jwt_secret: &Result<String, String>, now: u64) -> (r: Result<Claims, JwtError>)
    ensures
        validation_outcome(token@, secret_view(*jwt_secret), now, VALIDATION_LEEWAY, check_result(r)),
{
    let secret = match jwt_secret {
        Err(e) => return Err(JwtError::MissingEnv(e.clone())),
        Ok(s) => s,
    };
    match check_token_at(token, secret.as_str(), now, VALIDATION_LEEWAY) {
        Ok(c) => Ok(c),
        Err(m) => Err(JwtError::InvalidToken(m)),
    }
}

/// Checks a session token at the current time (as the token library reads
/// the clock), as `validate_token_at` does.
pub fn validate_token(token: &str, jwt_secret: &Result<String, String>) -> (r: Result<Claims, JwtError>)
    ensures
        exists|now: u64| #[trigger] validation_outcome(token@, secret_view(*jwt_secret), now, VALIDATION_LEEWAY, check_result(r)),
{
    let now = current_timestamp();
    validate_token_at(token, jwt_secret, now)
}

} // verus!
