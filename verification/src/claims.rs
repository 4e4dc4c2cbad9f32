//! The payload of a token: who it was issued to, and for how long it holds.

use vstd::prelude::*;
use crate::clock::{unix_now, CLOCK_LIMIT};

verus! {

/// Number of seconds a freshly issued token stays valid: three hours.
pub const TOKEN_VALIDITY_SECS: i64 = 10800;

/// The mathematical content of a `Claims` value.
pub ghost struct ClaimsView {
    pub client_id: Seq<char>,
    pub org: Seq<char>,
    pub iat: int,
    pub exp: int,
}

impl ClaimsView {
    /// The claims given to `client_id` of `org` at the instant `iat`.
    pub open spec fn issued(client_id: Seq<char>, org: Seq<char>, iat: int) -> ClaimsView {
        ClaimsView { client_id, org, iat, exp: iat + 10800 }
    }

    /// Whether the instant `now` lies in the closed window from issue to expiry.
    pub open spec fn current_at(self, now: int) -> bool {
        self.iat <= now <= self.exp
    }
}

/// Identity, organization and validity window carried by a token.
#[derive(Debug, Clone, PartialEq, Eq)]
pub struct Claims {
    client_id: String,
    org: String,
    iat: i64,
    exp: i64,
}

impl View for Claims {
    type V = ClaimsView;

    open spec fn view(&self) -> ClaimsView {
        ClaimsView {
            client_id: self.spec_client_id(),
            org: self.spec_org(),
            iat: self.spec_iat() as int,
            exp: self.spec_exp() as int,
        }
    }
}

impl Claims {
    pub closed spec fn spec_client_id(&self) -> Seq<char> {
        self.client_id@
    }

    pub closed spec fn spec_org(&self) -> Seq<char> {
        self.org@
    }

    pub closed spec fn spec_iat(&self) -> i64 {
        self.iat
    }

    pub closed spec fn spec_exp(&self) -> i64 {
        self.exp
    }

    /// Claims for `client_id` of `org`, issued now and valid for three hours.
    ///
    /// The issue instant is an instant the clock can report; the expiry is
    /// always three hours after it.
    pub fn new(client_id: String, org: String) -> (claims: Claims)
        ensures
            claims@ == ClaimsView::issued(client_id@, org@, claims@.iat),
            -CLOCK_LIMIT < claims@.iat < CLOCK_LIMIT,
    {
        let iat = unix_now();
        Claims::issued_at(client_id, org, iat)
    }

    /// Claims for `client_id` of `org`, issued at `iat` and valid for three hours.
    pub fn issued_at(client_id: String, org: String, iat: i64) -> (claims: Claims)
        requires
            iat + 10800 <= i64::MAX,
        ensures
            claims@ == ClaimsView::issued(client_id@, org@, iat as int),
    {
        Claims { client_id, org, iat, exp: iat + TOKEN_VALIDITY_SECS }
    }

    /// Claims with the four members as given, as they are read out of a token.
    pub fn from_parts(client_id: String, org: String, iat: i64, exp: i64) -> (claims: Claims)
        ensures
            claims@ == (ClaimsView { client_id: client_id@, org: org@, iat: iat as int, exp: exp as int }),
    {
        Claims { client_id, org, iat, exp }
    }

    /// Whether `now` lies in the closed window from issue to expiry.
    pub fn is_current_at(&self, now: i64) -> (current: bool)
        ensures
            current == self@.current_at(now as int),
    {
        self.iat <= now && now <= self.exp
    }

    pub fn client_id(&self) -> (id: &str)
        ensures
            id@ == self@.client_id,
    {
        self.client_id.as_str()
    }

    pub fn org(&self) -> (org: &str)
        ensures
            org@ == self@.org,
    {
        self.org.as_str()
    }

    pub fn iat(&self) -> (iat: i64)
        ensures
            iat == self@.iat,
    {
        self.iat
    }

    pub fn exp(&self) -> (exp: i64)
        ensures
            exp == self@.exp,
    {
        self.exp
    }
}

/// Claims that were issued hold from their issue instant to exactly three
/// hours later, and at no other instant.
pub proof fn lemma_issued_window(client_id: Seq<char>, org: Seq<char>, iat: int, now: int)
    ensures
        ClaimsView::issued(client_id, org, iat).exp == iat + 10800,
        ClaimsView::issued(client_id, org, iat).current_at(now) <==> iat <= now <= iat + 10800,
{
}

} // verus!
