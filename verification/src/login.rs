//! The login operation: credentials in, bearer token out.

use vstd::prelude::*;
use crate::claims::ClaimsView;
use crate::clock::{unix_now, CLOCK_LIMIT};
use crate::credentials::{accepts, AuthPayload, CredentialStore, UserView};
use crate::error::BdfError;
use crate::guard::{admitted_claims, lemma_issued_token_is_admitted};
use crate::token::{is_token_text, payload_of, token_of, token_payload, verified_claims, Keys};

verus! {

/// What a client gets for a successful login.
#[derive(Debug, Clone, PartialEq, Eq)]
pub struct AuthResponse {
    access_token: String,
    token_type: String,
}

impl AuthResponse {
    pub closed spec fn spec_access_token(&self) -> Seq<char> {
        self.access_token@
    }

    pub closed spec fn spec_token_type(&self) -> Seq<char> {
        self.token_type@
    }

    /// The response that carries `access_token` as a bearer token.
    pub fn new(access_token: String) -> (response: AuthResponse)
        ensures
            response.spec_access_token() == access_token@,
            response.spec_token_type() == "Bearer"@,
    {
        AuthResponse { access_token, token_type: String::from_str("Bearer") }
    }

    pub fn access_token(&self) -> (token: &str)
        ensures
            token@ == self.spec_access_token(),
    {
        self.access_token.as_str()
    }

    pub fn token_type(&self) -> (kind: &str)
        ensures
            kind@ == self.spec_token_type(),
    {
        self.token_type.as_str()
    }
}

/// The failure that a login with these credentials meets before any token is
/// made, if it meets one: the same for an empty field, an unknown client and a
/// wrong secret.
pub open spec fn refusal_of(
    table: Map<Seq<char>, UserView>,
    client_id: Seq<char>,
    client_secret: Seq<char>,
) -> Option<BdfError> {
    if accepts(table, client_id, client_secret) {
        None
    } else {
        Some(BdfError::InvalidCredentials)
    }
}

/// Logs a client in at the instant `now`.
///
/// Credentials that the store does not accept are refused as invalid
/// credentials, whichever check fails. For accepted credentials a token is
/// issued to the client's identifier and organization and comes back as a
/// bearer token.
pub fn authorize_at(
    store: &CredentialStore,
    keys: &Keys,
    payload: &AuthPayload,
    now: i64,
) -> (outcome: Result<AuthResponse, BdfError>)
    requires
        now + 10800 <= i64::MAX,
    ensures
        refusal_of(store@, payload.client_id@, payload.client_secret@) matches Some(refusal)
            ==> outcome == Err::<AuthResponse, BdfError>(refusal),
        accepts(store@, payload.client_id@, payload.client_secret@) ==> outcome is Ok,
        accepts(store@, payload.client_id@, payload.client_secret@) ==> (outcome matches Ok(
            response,
        ) ==> {
            let granted = ClaimsView::issued(
                payload.client_id@,
                store@[payload.client_id@].org,
                now as int,
            );
            &&& response.spec_token_type() == "Bearer"@
            &&& response.spec_access_token() == token_of(granted, keys@)
            &&& is_token_text(response.spec_access_token())
            &&& token_payload(response.spec_access_token(), keys@) == Some(payload_of(granted))
            &&& forall|at: int|
                now <= at <= now + 10800 ==> #[trigger] verified_claims(
                    response.spec_access_token(),
                    keys@,
                    at,
                ) == Some(granted)
            &&& forall|at: int|
                now <= at <= now + 10800 ==> #[trigger] admitted_claims(
                    Some("Bearer "@ + response.spec_access_token()),
                    keys@,
                    at,
                ) == Some(granted)
        }),
{
    let user = match store.check(payload) {
        Ok(user) => user,
        Err(e) => { return Err(e); },
    };
    match keys.issue_at(user.client_id.as_str(), user.org.as_str(), now) {
        Ok(token) => {
            proof {
                assert forall|at: int| now <= at <= now + 10800 implies #[trigger] admitted_claims(
                    Some("Bearer "@ + token@),
                    keys@,
                    at,
                ) == Some(
                    ClaimsView::issued(
                        payload.client_id@,
                        store@[payload.client_id@].org,
                        now as int,
                    ),
                ) by {
                    lemma_issued_token_is_admitted(
                        token@,
                        keys@,
                        payload.client_id@,
                        store@[payload.client_id@].org,
                        now as int,
                        at,
                    );
                }
            }
            Ok(AuthResponse::new(token))
        },
        Err(e) => Err(e),
    }
}

/// Logs a client in at the instant the clock reports.
///
/// Credentials that the store does not accept are refused as invalid
/// credentials. Accepted credentials get a bearer token that verifies under
/// the key and yields the client's identifier and organization with a window
/// of three hours.
pub fn authorize(store: &CredentialStore, keys: &Keys, payload: &AuthPayload) -> (outcome: Result<
    AuthResponse,
    BdfError,
>)
    ensures
        refusal_of(store@, payload.client_id@, payload.client_secret@) matches Some(refusal)
            ==> outcome == Err::<AuthResponse, BdfError>(refusal),
        accepts(store@, payload.client_id@, payload.client_secret@) ==> outcome is Ok,
        accepts(store@, payload.client_id@, payload.client_secret@) ==> (outcome matches Ok(
            response,
        ) ==> response.spec_token_type() == "Bearer"@ && exists|iat: int|
            #![trigger ClaimsView::issued(payload.client_id@, store@[payload.client_id@].org, iat)]
            {
                let granted = ClaimsView::issued(
                    payload.client_id@,
                    store@[payload.client_id@].org,
                    iat,
                );
                &&& -CLOCK_LIMIT < iat < CLOCK_LIMIT
                &&& is_token_text(response.spec_access_token())
                &&& admitted_claims(
                    Some("Bearer "@ + response.spec_access_token()),
                    keys@,
                    iat,
                ) == Some(granted)
                &&& response.spec_access_token() == token_of(granted, keys@)
                &&& token_payload(response.spec_access_token(), keys@) == Some(
                    payload_of(granted),
                )
                &&& verified_claims(response.spec_access_token(), keys@, iat) == Some(granted)
            }),
{
    let now = unix_now();
    let outcome = authorize_at(store, keys, payload, now);
    proof {
        if outcome is Ok {
            assert(admitted_claims(
                Some("Bearer "@ + outcome->Ok_0.spec_access_token()),
                keys@,
                now as int,
            ) == Some(
                ClaimsView::issued(
                    payload.client_id@,
                    store@[payload.client_id@].org,
                    now as int,
                ),
            ));
            assert(verified_claims(outcome->Ok_0.spec_access_token(), keys@, now as int) == Some(
                ClaimsView::issued(
                    payload.client_id@,
                    store@[payload.client_id@].org,
                    now as int,
                ),
            ));
        }
    }
    outcome
}

/// Every login that the store does not accept is answered alike: status 401
/// and the message "Invalid credentials", whether a field was empty, the
/// client unknown or the secret wrong.
pub proof fn lemma_refused_logins_look_alike(
    table: Map<Seq<char>, UserView>,
    client_id: Seq<char>,
    client_secret: Seq<char>,
)
    requires
        client_id.len() == 0 || client_secret.len() == 0 || !table.contains_key(client_id)
            || table[client_id].client_secret != client_secret,
    ensures
        refusal_of(table, client_id, client_secret) == Some(BdfError::InvalidCredentials),
        refusal_of(table, client_id, client_secret)->Some_0.spec_status() == 401,
        refusal_of(table, client_id, client_secret)->Some_0.spec_message()
            == "Invalid credentials"@,
{
}

/// A login that the store accepts meets no failure before the token is made.
pub proof fn lemma_accepted_logins_are_not_refused(
    table: Map<Seq<char>, UserView>,
    client_id: Seq<char>,
    client_secret: Seq<char>,
)
    requires
        client_id.len() > 0,
        client_secret.len() > 0,
        table.contains_key(client_id),
        table[client_id].client_secret == client_secret,
    ensures
        refusal_of(table, client_id, client_secret) is None,
{
}

} // verus!
