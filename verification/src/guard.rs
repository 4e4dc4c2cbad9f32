//! The guard that stands before every protected handler.
//!
//! A request passes only with an `Authorization` header of the bearer scheme
//! whose token verifies. The guard hands the claims to the handler or refuses
//! the request; there is no third way, and every refusal is the same.

use vstd::prelude::*;
use crate::claims::{Claims, ClaimsView};
use crate::clock::{unix_now, CLOCK_LIMIT};
use crate::error::BdfError;
use crate::token::{is_token_text, payload_of, token_payload, verified_claims, Keys};

verus! {

/// Whether a header value starts with the scheme `Bearer`, in any mix of upper
/// and lower case, followed by a space.
pub open spec fn names_bearer_scheme(header: Seq<char>) -> bool {
    &&& header.len() > 6
    &&& (header[0] == 'B' || header[0] == 'b')
    &&& (header[1] == 'E' || header[1] == 'e')
    &&& (header[2] == 'A' || header[2] == 'a')
    &&& (header[3] == 'R' || header[3] == 'r')
    &&& (header[4] == 'E' || header[4] == 'e')
    &&& (header[5] == 'R' || header[5] == 'r')
    &&& header[6] == ' '
}

/// Whether a character may stand in a header value that is read as text:
/// visible ASCII, the space, or the tab.
pub open spec fn is_header_text(c: char) -> bool {
    (32 <= c as u32 && (c as u32) < 127) || c == '\t'
}

/// What is left of a text once the spaces and tabs at its start are removed.
pub open spec fn without_leading_blanks(text: Seq<char>) -> Seq<char>
    decreases text.len(),
{
    if text.len() > 0 && (text[0] == ' ' || text[0] == '\t') {
        without_leading_blanks(text.skip(1))
    } else {
        text
    }
}

/// The token that an `Authorization` header value carries: if the value is
/// header text throughout and names the bearer scheme, what follows the
/// scheme and its space, without leading blanks; `None` for every other value.
pub open spec fn bearer_credentials(header: Seq<char>) -> Option<Seq<char>> {
    if names_bearer_scheme(header) && (forall|i: int|
        0 <= i < header.len() ==> is_header_text(#[trigger] header[i])) {
        Some(without_leading_blanks(header.skip(7)))
    } else {
        None
    }
}

/// What the guard yields for a request at the instant `now`: the claims of the
/// bearer token if there is a header, it carries a bearer token, and the token
/// verifies; nothing otherwise.
pub open spec fn admitted_claims(
    authorization: Option<Seq<char>>,
    secret: Seq<u8>,
    now: int,
) -> Option<ClaimsView> {
    match authorization {
        Some(header) => match bearer_credentials(header) {
            Some(token) => verified_claims(token, secret, now),
            None => None,
        },
        None => None,
    }
}

/// The token in an `Authorization` header value.
///
/// Makes an `http::HeaderValue` of the text and calls the `decode` of
/// `headers::Authorization<Bearer>` on it, then `Bearer::token`. A token
/// comes out exactly for a value of visible ASCII, spaces and tabs that
/// starts with the scheme, compared without regard to case, and a space; the
/// token is the rest of the value after `str::trim_start`, which in such a
/// value removes spaces and tabs.
#[verifier::external_body]
fn bearer_token(header: &str) -> (token: Option<String>)
    ensures
        match token {
            Some(t) => bearer_credentials(header@) == Some(t@),
            None => bearer_credentials(header@) is None,
        },
{
    let value = axum_extra::headers::HeaderValue::from_str(header).ok()?;
    let mut values = std::iter::once(&value);
    let parsed: axum_extra::headers::Authorization<axum_extra::headers::authorization::Bearer> =
        axum_extra::headers::Header::decode(&mut values).ok()?;
    Some(parsed.token().to_owned())
}

/// Decides on a request at the instant `now`, given the value of its
/// `Authorization` header, if it has one.
pub fn guard_at(keys: &Keys, authorization: Option<&str>, now: i64) -> (passed: Result<
    Claims,
    BdfError,
>)
    ensures
        match passed {
            Ok(claims) => admitted_claims(header_view(authorization), keys@, now as int) == Some(
                claims@,
            ),
            Err(e) => e == BdfError::InvalidToken && admitted_claims(
                header_view(authorization),
                keys@,
                now as int,
            ) is None,
        },
        authorization is None ==> passed == Err::<Claims, BdfError>(BdfError::InvalidToken),
        authorization matches Some(header) && !names_bearer_scheme(header@) ==> passed == Err::<
            Claims,
            BdfError,
        >(BdfError::InvalidToken),
{
    let header = match authorization {
        Some(header) => header,
        None => { return Err(BdfError::InvalidToken); },
    };
    match bearer_token(header) {
        Some(token) => keys.verify_at(token.as_str(), now),
        None => Err(BdfError::InvalidToken),
    }
}

/// Decides on a request at the instant the clock reports.
///
/// The outcome is the one that `guard_at` gives at some instant the clock can
/// report: claims come back if the request is admitted at that instant, and
/// the request is refused if it is not. So a request without the header, or
/// with a header that carries no bearer token, is always refused. Every
/// refusal is the same invalid token.
pub fn guard(keys: &Keys, authorization: Option<&str>) -> (passed: Result<Claims, BdfError>)
    ensures
        passed matches Err(e) ==> e == BdfError::InvalidToken,
        exists|now: int|
            #![trigger admitted_claims(header_view(authorization), keys@, now)]
            -CLOCK_LIMIT < now < CLOCK_LIMIT && (match passed {
                Ok(claims) => admitted_claims(header_view(authorization), keys@, now) == Some(
                    claims@,
                ),
                Err(_) => admitted_claims(header_view(authorization), keys@, now) is None,
            }),
        authorization is None ==> passed is Err,
        authorization matches Some(header) && !names_bearer_scheme(header@) ==> passed is Err,
{
    let now = unix_now();
    let passed = guard_at(keys, authorization, now);
    assert(-CLOCK_LIMIT < now < CLOCK_LIMIT && (match passed {
        Ok(claims) => admitted_claims(header_view(authorization), keys@, now as int) == Some(
            claims@,
        ),
        Err(_) => admitted_claims(header_view(authorization), keys@, now as int) is None,
    }));
    passed
}

/// Runs `handler` behind the guard, at the instant `now`.
///
/// The handler runs only on claims that the request was admitted with, and
/// its answer is what comes back. A request that is not admitted is refused
/// with an invalid token, and no answer of the handler exists.
pub fn protect_at<T, F: FnOnce(Claims) -> T>(
    keys: &Keys,
    authorization: Option<&str>,
    now: i64,
    handler: F,
) -> (served: Result<T, BdfError>)
    requires
        forall|claims: Claims|
            admitted_claims(header_view(authorization), keys@, now as int) == Some(claims@)
                ==> handler.requires((claims,)),
    ensures
        match served {
            Ok(answer) => exists|claims: Claims|
                admitted_claims(header_view(authorization), keys@, now as int) == Some(claims@)
                    && handler.ensures((claims,), answer),
            Err(e) => e == BdfError::InvalidToken && admitted_claims(
                header_view(authorization),
                keys@,
                now as int,
            ) is None,
        },
{
    match guard_at(keys, authorization, now) {
        Ok(claims) => Ok(handler(claims)),
        Err(e) => Err(e),
    }
}

/// The text of an optional header value.
pub open spec fn header_view(authorization: Option<&str>) -> Option<Seq<char>> {
    match authorization {
        Some(header) => Some(header@),
        None => None,
    }
}

/// A request without an `Authorization` header is admitted at no instant and
/// under no key.
pub proof fn lemma_missing_header_is_refused(secret: Seq<u8>, now: int)
    ensures
        admitted_claims(None, secret, now) is None,
{
}

/// A request whose header does not name the bearer scheme is admitted at no
/// instant and under no key.
pub proof fn lemma_other_scheme_is_refused(header: Seq<char>, secret: Seq<u8>, now: int)
    requires
        !names_bearer_scheme(header),
    ensures
        bearer_credentials(header) is None,
        admitted_claims(Some(header), secret, now) is None,
{
}

/// The header made of the scheme, a space and a token carries that token, for
/// every text that has the form of a token.
pub proof fn lemma_bearer_header_carries_token(token: Seq<char>)
    requires
        is_token_text(token),
    ensures
        bearer_credentials("Bearer "@ + token) == Some(token),
{
    reveal_strlit("Bearer ");
    let header = "Bearer "@ + token;
    assert(header.skip(7) =~= token);
    assert(token[0] != ' ' && token[0] != '\t');
    assert forall|i: int| 0 <= i < header.len() implies is_header_text(#[trigger] header[i]) by {
        if i >= 7 {
            assert(header[i] == token[i - 7]);
        }
    }
}

/// A request with the header made of the scheme, a space and a token is
/// admitted exactly as the token verifies.
pub proof fn lemma_bearer_header_is_admitted_as_its_token(
    token: Seq<char>,
    secret: Seq<u8>,
    now: int,
)
    requires
        is_token_text(token),
    ensures
        admitted_claims(Some("Bearer "@ + token), secret, now) == verified_claims(
            token,
            secret,
            now,
        ),
{
    lemma_bearer_header_carries_token(token);
}

/// Round trip through the header: a request that presents a token issued at
/// `iat` as its bearer token is admitted at every instant from `iat` to three
/// hours later, with the claims the token was issued for.
pub proof fn lemma_issued_token_is_admitted(
    token: Seq<char>,
    secret: Seq<u8>,
    client_id: Seq<char>,
    org: Seq<char>,
    iat: int,
    now: int,
)
    requires
        i64::MIN <= iat,
        iat + 10800 <= i64::MAX,
        is_token_text(token),
        token_payload(token, secret) == Some(payload_of(ClaimsView::issued(client_id, org, iat))),
        iat <= now <= iat + 10800,
    ensures
        admitted_claims(Some("Bearer "@ + token), secret, now) == Some(
            ClaimsView::issued(client_id, org, iat),
        ),
{
    lemma_bearer_header_carries_token(token);
    crate::token::lemma_issued_token_verifies(token, secret, client_id, org, iat, now);
}

} // verus!
