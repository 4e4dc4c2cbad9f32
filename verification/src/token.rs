//! Issuing and verifying signed tokens.
//!
//! A token is the compact three-part form of the claims, signed with the
//! process key by a keyed hash. Signing and opening a token are the work of
//! `jsonwebtoken`; which payloads make claims, and at which instants claims
//! hold, is decided here.

use vstd::prelude::*;
use vstd::slice::slice_to_vec;
use crate::claims::{Claims, ClaimsView};
use crate::clock::{unix_now, CLOCK_LIMIT};
use crate::error::BdfError;

verus! {

/// A JSON value of `serde_json`, here the payload of an opened token. Its
/// inside is reached through `json_text` and `json_integers` only.
#[verifier::external_type_specification]
#[verifier::external_body]
pub struct ExJsonValue(serde_json::Value);

/// The failure of `jsonwebtoken`. Nothing is read from it: every failure to
/// sign is one kind of failure here, and so is every failure to open.
#[verifier::external_type_specification]
#[verifier::external_body]
pub struct ExTokenError(jsonwebtoken::errors::Error);

/// The members of a JSON object that hold a string, by name. Empty for a
/// value that is no object.
pub uninterp spec fn json_text(value: serde_json::Value) -> Map<Seq<char>, Seq<char>>;

/// The members of a JSON object that hold a number that is an `i64`, by name.
/// Empty for a value that is no object.
pub uninterp spec fn json_integers(value: serde_json::Value) -> Map<Seq<char>, i64>;

/// The token that signing a payload with `secret` gives, for the payload of
/// two text members followed by two integer members, each given as its name
/// and its value.
pub uninterp spec fn signed_token(
    first_name: Seq<char>,
    first_text: Seq<char>,
    second_name: Seq<char>,
    second_text: Seq<char>,
    third_name: Seq<char>,
    third_integer: int,
    fourth_name: Seq<char>,
    fourth_integer: int,
    secret: Seq<u8>,
) -> Seq<char>;

/// What opening `token` under `secret` gives: the payload as its text members
/// and its integer members, if the token opens; `None` otherwise. A token
/// opens if it has three parts, its header names the default keyed hash, its
/// signature is the one that `secret` gives, and its payload is a JSON object
/// without an audience. The instant of the check plays no part in it.
pub uninterp spec fn token_payload(token: Seq<char>, secret: Seq<u8>) -> Option<
    (Map<Seq<char>, Seq<char>>, Map<Seq<char>, i64>),
>;

/// The payload that stands for claims: `client_id` and `org` as text, `iat`
/// and `exp` as integers.
pub open spec fn payload_of(claims: ClaimsView) -> (Map<Seq<char>, Seq<char>>, Map<Seq<char>, i64>) {
    (
        Map::<Seq<char>, Seq<char>>::empty().insert("client_id"@, claims.client_id).insert(
            "org"@,
            claims.org,
        ),
        Map::<Seq<char>, i64>::empty().insert("iat"@, claims.iat as i64).insert(
            "exp"@,
            claims.exp as i64,
        ),
    )
}

/// Whether a text has the form of a token: not empty, and visible ASCII
/// without blanks throughout.
pub open spec fn is_token_text(text: Seq<char>) -> bool {
    &&& text.len() > 0
    &&& forall|i: int|
        0 <= i < text.len() ==> 32 < (#[trigger] text[i]) as u32 && (text[i] as u32) < 127
}

/// The token that stands for claims under `secret`: the signed payload of
/// `client_id`, `org`, `iat` and `exp`, in this order.
pub open spec fn token_of(claims: ClaimsView, secret: Seq<u8>) -> Seq<char> {
    signed_token(
        "client_id"@,
        claims.client_id,
        "org"@,
        claims.org,
        "iat"@,
        claims.iat,
        "exp"@,
        claims.exp,
        secret,
    )
}

/// The claims that a payload holds: all four members must be there, each of
/// its kind. Members beyond these four are ignored.
pub open spec fn claims_in(
    text: Map<Seq<char>, Seq<char>>,
    integers: Map<Seq<char>, i64>,
) -> Option<ClaimsView> {
    if text.contains_key("client_id"@) && text.contains_key("org"@) && integers.contains_key(
        "iat"@,
    ) && integers.contains_key("exp"@) {
        Some(
            ClaimsView {
                client_id: text["client_id"@],
                org: text["org"@],
                iat: integers["iat"@] as int,
                exp: integers["exp"@] as int,
            },
        )
    } else {
        None
    }
}

/// The claims that a payload yields at the instant `now`, if there is a
/// payload at all: its claims, if it holds claims and `now` lies in their
/// window; nothing otherwise.
pub open spec fn claims_at(
    payload: Option<(Map<Seq<char>, Seq<char>>, Map<Seq<char>, i64>)>,
    now: int,
) -> Option<ClaimsView> {
    match payload {
        Some(members) => match claims_in(members.0, members.1) {
            Some(claims) => if claims.current_at(now) {
                Some(claims)
            } else {
                None
            },
            None => None,
        },
        None => None,
    }
}

/// What verifying `token` under `secret` at the instant `now` yields: the
/// claims of its payload if the token opens, the payload holds claims, and
/// `now` lies in their window; nothing otherwise.
pub open spec fn verified_claims(token: Seq<char>, secret: Seq<u8>, now: int) -> Option<
    ClaimsView,
> {
    claims_at(token_payload(token, secret), now)
}

/// The payload that an attempt to open a token gave, if it gave one.
pub open spec fn opened_payload(
    opened: Result<serde_json::Value, jsonwebtoken::errors::Error>,
) -> Option<(Map<Seq<char>, Seq<char>>, Map<Seq<char>, i64>)> {
    match opened {
        Ok(payload) => Some((json_text(payload), json_integers(payload))),
        Err(_) => None,
    }
}

/// The string member `name` of a JSON object.
///
/// Calls `serde_json::Value::get` with a string index and then
/// `serde_json::Value::as_str`: the member is handed out exactly if the value
/// is an object that has it and it is a string.
#[verifier::external_body]
fn text_member(value: &serde_json::Value, name: &str) -> (member: Option<String>)
    ensures
        match member {
            Some(text) => json_text(*value).contains_key(name@) && json_text(*value)[name@]
                == text@,
            None => !json_text(*value).contains_key(name@),
        },
{
    value.get(name)?.as_str().map(str::to_owned)
}

/// The integer member `name` of a JSON object.
///
/// Calls `serde_json::Value::get` with a string index and then
/// `serde_json::Value::as_i64`: the member is handed out exactly if the value
/// is an object that has it and it is a number that fits an `i64`.
#[verifier::external_body]
fn integer_member(value: &serde_json::Value, name: &str) -> (member: Option<i64>)
    ensures
        match member {
            Some(n) => json_integers(*value).contains_key(name@) && json_integers(*value)[name@]
                == n,
            None => !json_integers(*value).contains_key(name@),
        },
{
    value.get(name)?.as_i64()
}

/// Signs a payload of two text members and two integer members with `secret`.
///
/// Calls `jsonwebtoken::encode` with the default header, a JSON object of the
/// four members in the order given, and the key that
/// `jsonwebtoken::EncodingKey::from_secret` makes of `secret`. Four things
/// are claimed. Signing succeeds: with a key made of a secret and the default
/// header, `encode` has no failing path. The token depends on the members and
/// the secret alone. The token is three runs of unpadded URL-safe base64
/// joined by dots, so visible ASCII without blanks. And the token opens under
/// the same secret to the payload that was signed, which needs the four names
/// to differ and no text member to be an audience, since opening refuses a
/// payload with one.
#[verifier::external_body]
fn sign_members(
    first: (&str, &str),
    second: (&str, &str),
    third: (&str, i64),
    fourth: (&str, i64),
    secret: &[u8],
) -> (signed: Result<String, jsonwebtoken::errors::Error>)
    requires
        first.0@ != second.0@,
        first.0@ != third.0@,
        first.0@ != fourth.0@,
        second.0@ != third.0@,
        second.0@ != fourth.0@,
        third.0@ != fourth.0@,
        first.0@ != "aud"@,
        second.0@ != "aud"@,
    ensures
        signed is Ok,
        signed matches Ok(token) ==> is_token_text(token@),
        signed matches Ok(token) ==> token@ == signed_token(
            first.0@,
            first.1@,
            second.0@,
            second.1@,
            third.0@,
            third.1 as int,
            fourth.0@,
            fourth.1 as int,
            secret@,
        ),
        signed matches Ok(token) ==> token_payload(token@, secret@) == Some(
            (
                Map::<Seq<char>, Seq<char>>::empty().insert(first.0@, first.1@).insert(
                    second.0@,
                    second.1@,
                ),
                Map::<Seq<char>, i64>::empty().insert(third.0@, third.1).insert(
                    fourth.0@,
                    fourth.1,
                ),
            ),
        ),
{
    let mut payload = serde_json::Map::new();
    payload.insert(first.0.to_owned(), serde_json::Value::from(first.1));
    payload.insert(second.0.to_owned(), serde_json::Value::from(second.1));
    payload.insert(third.0.to_owned(), serde_json::Value::from(third.1));
    payload.insert(fourth.0.to_owned(), serde_json::Value::from(fourth.1));
    let key = jsonwebtoken::EncodingKey::from_secret(secret);
    jsonwebtoken::encode(&jsonwebtoken::Header::default(), &payload, &key)
}

/// Opens a token under `secret`.
///
/// Calls `jsonwebtoken::decode` with the key that
/// `jsonwebtoken::DecodingKey::from_secret` makes of `secret` and a validation
/// for the default algorithm that checks form and signature but no instant, so
/// that the outcome depends on the token and the secret alone. The payload
/// comes back as a JSON value.
#[verifier::external_body]
fn open_token(token: &str, secret: &[u8]) -> (opened: Result<
    serde_json::Value,
    jsonwebtoken::errors::Error,
>)
    ensures
        match opened {
            Ok(payload) => token_payload(token@, secret@) == Some(
                (json_text(payload), json_integers(payload)),
            ),
            Err(_) => token_payload(token@, secret@) is None,
        },
{
    let mut validation = jsonwebtoken::Validation::new(jsonwebtoken::Algorithm::HS256);
    validation.validate_exp = false;
    validation.required_spec_claims.clear();
    let key = jsonwebtoken::DecodingKey::from_secret(secret);
    jsonwebtoken::decode::<serde_json::Value>(token, &key, &validation).map(|data| data.claims)
}

/// Reads claims out of a payload: all four members must be there, each of its
/// kind.
pub fn claims_from_payload(payload: &serde_json::Value) -> (claims: Option<Claims>)
    ensures
        match claims {
            Some(c) => claims_in(json_text(*payload), json_integers(*payload)) == Some(c@),
            None => claims_in(json_text(*payload), json_integers(*payload)) is None,
        },
{
    let client_id = match text_member(payload, "client_id") {
        Some(text) => text,
        None => { return None; },
    };
    let org = match text_member(payload, "org") {
        Some(text) => text,
        None => { return None; },
    };
    let iat = match integer_member(payload, "iat") {
        Some(n) => n,
        None => { return None; },
    };
    let exp = match integer_member(payload, "exp") {
        Some(n) => n,
        None => { return None; },
    };
    Some(Claims::from_parts(client_id, org, iat, exp))
}

/// Admits claims at the instant `now`: they pass if `now` lies in their
/// window, and are an invalid token otherwise.
pub fn admit_at(claims: Claims, now: i64) -> (admitted: Result<Claims, BdfError>)
    ensures
        match admitted {
            Ok(c) => c == claims && claims@.current_at(now as int),
            Err(e) => e == BdfError::InvalidToken && !claims@.current_at(now as int),
        },
{
    if claims.is_current_at(now) {
        Ok(claims)
    } else {
        Err(BdfError::InvalidToken)
    }
}

/// Decides on what opening a token gave, at the instant `now`: claims come
/// back if the token opened, its payload holds claims, and `now` lies in
/// their window. Every other outcome is the same invalid token.
pub fn judge(
    opened: Result<serde_json::Value, jsonwebtoken::errors::Error>,
    now: i64,
) -> (verdict: Result<Claims, BdfError>)
    ensures
        match verdict {
            Ok(claims) => claims_at(opened_payload(opened), now as int) == Some(claims@),
            Err(e) => e == BdfError::InvalidToken && claims_at(
                opened_payload(opened),
                now as int,
            ) is None,
        },
{
    match opened {
        Ok(payload) => match claims_from_payload(&payload) {
            Some(claims) => admit_at(claims, now),
            None => Err(BdfError::InvalidToken),
        },
        Err(_) => Err(BdfError::InvalidToken),
    }
}

/// The process-wide signing key: one secret, used both to sign and to verify.
pub struct Keys {
    secret: Vec<u8>,
}

impl View for Keys {
    type V = Seq<u8>;

    closed spec fn view(&self) -> Seq<u8> {
        self.secret@
    }
}

impl Keys {
    /// The key for `secret`.
    pub fn new(secret: &[u8]) -> (keys: Keys)
        ensures
            keys@ == secret@,
    {
        Keys { secret: slice_to_vec(secret) }
    }

    /// Signs `claims`: the payload of their four members, under this key.
    ///
    /// Signing always succeeds, the token is visible ASCII without blanks,
    /// and it opens under this key to the payload that was signed.
    pub fn sign(&self, claims: &Claims) -> (signed: Result<String, BdfError>)
        ensures
            signed is Ok,
            signed matches Ok(token) ==> token@ == token_of(claims@, self@) && token_payload(
                token@,
                self@,
            ) == Some(payload_of(claims@)),
            signed matches Ok(token) ==> is_token_text(token@),
    {
        proof {
            reveal_strlit("client_id");
            reveal_strlit("org");
            reveal_strlit("iat");
            reveal_strlit("exp");
            reveal_strlit("aud");
            assert("org"@[0] != "aud"@[0]);
            assert("client_id"@.len() == 9 && "org"@.len() == 3);
            assert("org"@[0] != "iat"@[0] && "org"@[0] != "exp"@[0] && "iat"@[0] != "exp"@[0]);
        }
        let signed = sign_members(
            ("client_id", claims.client_id()),
            ("org", claims.org()),
            ("iat", claims.iat()),
            ("exp", claims.exp()),
            self.secret.as_slice(),
        );
        match signed {
            Ok(token) => Ok(token),
            Err(_) => Err(BdfError::TokenCreationError),
        }
    }

    /// Issues a token for `client_id` of `org` at the instant `now`.
    ///
    /// The token verifies under this key at every instant from `now` to three
    /// hours later, and at no other, and yields the claims it was issued for.
    pub fn issue_at(&self, client_id: &str, org: &str, now: i64) -> (issued: Result<
        String,
        BdfError,
    >)
        requires
            now + 10800 <= i64::MAX,
        ensures
            issued is Ok,
            issued matches Ok(token) ==> {
                let granted = ClaimsView::issued(client_id@, org@, now as int);
                &&& token@ == token_of(granted, self@)
                &&& is_token_text(token@)
                &&& token_payload(token@, self@) == Some(payload_of(granted))
                &&& forall|at: int|
                    now <= at <= now + 10800 ==> #[trigger] verified_claims(token@, self@, at)
                        == Some(granted)
                &&& forall|at: int|
                    !(now <= at <= now + 10800) ==> #[trigger] verified_claims(token@, self@, at)
                        is None
            },
    {
        let claims = Claims::issued_at(String::from_str(client_id), String::from_str(org), now);
        let signed = self.sign(&claims);
        proof {
            lemma_payload_holds_claims(claims@);
        }
        signed
    }

    /// Issues a token for `client_id` of `org` at the instant the clock reports.
    ///
    /// The token opens under this key to claims for `client_id` and `org`
    /// whose window is three hours long, and verifies at its issue instant.
    pub fn issue(&self, client_id: &str, org: &str) -> (issued: Result<String, BdfError>)
        ensures
            issued is Ok,
            issued matches Ok(token) ==> is_token_text(token@),
            issued matches Ok(token) ==> exists|iat: int|
                #![trigger ClaimsView::issued(client_id@, org@, iat)]
                -CLOCK_LIMIT < iat < CLOCK_LIMIT && token@ == token_of(
                    ClaimsView::issued(client_id@, org@, iat),
                    self@,
                ) && token_payload(token@, self@) == Some(
                    payload_of(ClaimsView::issued(client_id@, org@, iat)),
                ) && verified_claims(token@, self@, iat) == Some(
                    ClaimsView::issued(client_id@, org@, iat),
                ),
    {
        let now = unix_now();
        let issued = self.issue_at(client_id, org, now);
        proof {
            if issued is Ok {
                let token = issued->Ok_0;
                assert(verified_claims(token@, self@, now as int) == Some(
                    ClaimsView::issued(client_id@, org@, now as int),
                ));
            }
        }
        issued
    }

    /// Verifies `token` at the instant `now`.
    pub fn verify_at(&self, token: &str, now: i64) -> (verdict: Result<Claims, BdfError>)
        ensures
            match verdict {
                Ok(claims) => verified_claims(token@, self@, now as int) == Some(claims@),
                Err(e) => e == BdfError::InvalidToken && verified_claims(token@, self@, now as int)
                    is None,
            },
    {
        let opened = open_token(token, self.secret.as_slice());
        judge(opened, now)
    }

    /// Verifies `token` at the instant the clock reports.
    ///
    /// The verdict is the one that `verify_at` gives at some instant the clock
    /// can report: claims come back if the token verifies at that instant, and
    /// the token is refused if it does not. So a token that verifies at every
    /// such instant is accepted, and one that verifies at none is refused.
    /// Every refusal is the same invalid token.
    pub fn verify(&self, token: &str) -> (verdict: Result<Claims, BdfError>)
        ensures
            verdict matches Err(e) ==> e == BdfError::InvalidToken,
            exists|now: int|
                #![trigger verified_claims(token@, self@, now)]
                -CLOCK_LIMIT < now < CLOCK_LIMIT && (match verdict {
                    Ok(claims) => verified_claims(token@, self@, now) == Some(claims@),
                    Err(_) => verified_claims(token@, self@, now) is None,
                }),
    {
        let now = unix_now();
        let verdict = self.verify_at(token, now);
        assert(-CLOCK_LIMIT < now < CLOCK_LIMIT && (match verdict {
            Ok(claims) => verified_claims(token@, self@, now as int) == Some(claims@),
            Err(_) => verified_claims(token@, self@, now as int) is None,
        }));
        verdict
    }
}

/// The payload made of claims holds exactly those claims.
pub proof fn lemma_payload_holds_claims(claims: ClaimsView)
    requires
        i64::MIN <= claims.iat <= i64::MAX,
        i64::MIN <= claims.exp <= i64::MAX,
    ensures
        claims_in(payload_of(claims).0, payload_of(claims).1) == Some(claims),
{
    reveal_strlit("client_id");
    reveal_strlit("org");
    reveal_strlit("iat");
    reveal_strlit("exp");
    assert("client_id"@.len() != "org"@.len());
    assert("iat"@[0] != "exp"@[0]);
}

/// Round trip: a token whose payload was made of claims issued at `iat`
/// verifies at every instant from `iat` to three hours later, and yields
/// those claims, whose expiry is `iat` plus 10800 seconds.
pub proof fn lemma_issued_token_verifies(
    token: Seq<char>,
    secret: Seq<u8>,
    client_id: Seq<char>,
    org: Seq<char>,
    iat: int,
    now: int,
)
    requires
        i64::MIN <= iat,
        iat + 10800 <= i64::MAX,
        token_payload(token, secret) == Some(payload_of(ClaimsView::issued(client_id, org, iat))),
        iat <= now <= iat + 10800,
    ensures
        verified_claims(token, secret, now) == Some(ClaimsView::issued(client_id, org, iat)),
        verified_claims(token, secret, now)->Some_0.client_id == client_id,
        verified_claims(token, secret, now)->Some_0.org == org,
        verified_claims(token, secret, now)->Some_0.exp == iat + 10800,
{
    lemma_payload_holds_claims(ClaimsView::issued(client_id, org, iat));
}

/// A token whose claims expired before `now` does not verify at `now`,
/// however well it is signed.
pub proof fn lemma_expired_token_is_refused(token: Seq<char>, secret: Seq<u8>, now: int)
    requires
        token_payload(token, secret) is Some,
        claims_in(token_payload(token, secret)->Some_0.0, token_payload(token, secret)->Some_0.1)
            is Some,
        claims_in(
            token_payload(token, secret)->Some_0.0,
            token_payload(token, secret)->Some_0.1,
        )->Some_0.exp < now,
    ensures
        verified_claims(token, secret, now) is None,
{
}

/// A token that does not open under a secret verifies at no instant.
pub proof fn lemma_unopened_token_is_refused(token: Seq<char>, secret: Seq<u8>, now: int)
    requires
        token_payload(token, secret) is None,
    ensures
        verified_claims(token, secret, now) is None,
{
}

} // verus!
