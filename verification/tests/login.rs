use bdf::claims::Claims;
use bdf::credentials::{AuthPayload, CredentialStore, User};
use bdf::error::BdfError;
use bdf::guard::{guard, guard_at};
use bdf::login::{authorize, authorize_at, AuthResponse};
use bdf::token::Keys;

fn keys() -> Keys {
    Keys::new(b"a-signing-secret-for-the-tests")
}

fn alter_last(token: &str) -> String {
    let mut altered = String::from(&token[..token.len() - 1]);
    if token.ends_with('A') {
        altered.push('B');
    } else {
        altered.push('A');
    }
    altered
}

#[test]
fn walter_logs_in_and_passes_the_guard() {
    let store = CredentialStore::with_defaults();
    let keys = keys();
    let response = authorize(&store, &keys, &AuthPayload::new("walter", "verysecurepw")).unwrap();
    assert_eq!(response.token_type(), "Bearer");

    let claims = keys.verify(response.access_token()).unwrap();
    assert_eq!(claims.client_id(), "walter");
    assert_eq!(claims.org(), "erste");

    let header = format!("Bearer {}", response.access_token());
    let passed = guard(&keys, Some(header.as_str())).unwrap();
    assert_eq!(passed, claims);

    let forged = format!("Bearer {}", alter_last(response.access_token()));
    let refused = guard(&keys, Some(forged.as_str())).unwrap_err();
    assert_eq!(refused, BdfError::InvalidToken);
    let sent = refused.into_response();
    assert_eq!(sent.status, 401);
    assert_eq!(sent.error, "Invalid token");
    assert_eq!(sent.body, "{\"error\":\"Invalid token\"}");
}

#[test]
fn every_default_client_gets_a_token_for_itself() {
    let store = CredentialStore::with_defaults();
    let keys = keys();
    let expected = [
        ("walter", "erste"),
        ("karl", "rbi"),
        ("paul", "oenb"),
        ("roman", "erste"),
        ("johannes", "oenb"),
    ];
    for (client_id, org) in expected {
        let response =
            authorize_at(&store, &keys, &AuthPayload::new(client_id, "verysecurepw"), 1_700_000_000)
                .unwrap();
        let claims = keys.verify_at(response.access_token(), 1_700_000_000).unwrap();
        assert_eq!(claims.client_id(), client_id);
        assert_eq!(claims.org(), org);
        assert_eq!(claims.iat(), 1_700_000_000);
        assert_eq!(claims.exp(), 1_700_010_800);
    }
}

#[test]
fn refused_logins_are_told_apart_by_nothing() {
    let store = CredentialStore::with_defaults();
    let keys = keys();
    let refused = [
        AuthPayload::new("", "verysecurepw"),
        AuthPayload::new("walter", ""),
        AuthPayload::new("", ""),
        AuthPayload::new("nobody", "verysecurepw"),
        AuthPayload::new("walter", "wrong"),
        AuthPayload::new("Walter", "verysecurepw"),
    ];
    for payload in refused.iter() {
        let error = authorize(&store, &keys, payload).unwrap_err();
        assert_eq!(error, BdfError::InvalidCredentials);
        assert_eq!(error.describe(), "wrong credentials");
        let sent = error.into_response();
        assert_eq!(sent.status, 401);
        assert_eq!(sent.error, "Invalid credentials");
    }
}

#[test]
fn auth_response_is_a_bearer_token() {
    let response = AuthResponse::new(String::from("abc.def.ghi"));
    assert_eq!(response.access_token(), "abc.def.ghi");
    assert_eq!(response.token_type(), "Bearer");
}

#[test]
fn store_files_each_client_once() {
    let mut store = CredentialStore::new();
    assert!(store.lookup("anna").is_none());
    assert!(store.insert(User::new("anna", "pw1", "one")));
    assert!(!store.insert(User::new("anna", "pw2", "two")));
    assert!(store.insert(User::new("bert", "pw3", "two")));
    let anna = store.lookup("anna").unwrap();
    assert_eq!(anna.client_secret, "pw1");
    assert_eq!(anna.org, "one");
    assert_eq!(store.lookup("bert").unwrap().org, "two");
    assert!(store.lookup("ann").is_none());
}

#[test]
fn check_hands_out_the_stored_client() {
    let store = CredentialStore::with_defaults();
    let user = store.check(&AuthPayload::new("karl", "verysecurepw")).unwrap();
    assert_eq!(user.client_id, "karl");
    assert_eq!(user.org, "rbi");
    assert_eq!(
        store.check(&AuthPayload::new("karl", "verysecurepW")),
        Err(BdfError::InvalidCredentials)
    );
}

#[test]
fn guard_refuses_a_request_without_a_bearer_token() {
    let keys = keys();
    let token = keys.issue_at("walter", "erste", 1_700_000_000).unwrap();
    let mut handled = 0;
    let headers: [Option<String>; 6] = [
        None,
        Some(String::new()),
        Some(token.clone()),
        Some(format!("Basic {}", token)),
        Some(format!("Token {}", token)),
        Some(String::from("Bearer")),
    ];
    for header in headers.iter() {
        match guard_at(&keys, header.as_deref(), 1_700_000_000) {
            Ok(_) => handled += 1,
            Err(e) => assert_eq!(e, BdfError::InvalidToken),
        }
    }
    assert_eq!(handled, 0);
    assert_eq!(guard(&keys, None), Err(BdfError::InvalidToken));
}

#[test]
fn guard_hands_the_claims_to_the_handler() {
    let keys = keys();
    let token = keys.issue_at("paul", "oenb", 1_700_000_000).unwrap();
    let header = format!("Bearer {}", token);
    let claims: Claims = guard_at(&keys, Some(header.as_str()), 1_700_000_100).unwrap();
    assert_eq!(claims.client_id(), "paul");
    assert_eq!(claims.org(), "oenb");
    assert_eq!(claims.iat(), 1_700_000_000);
    assert_eq!(claims.exp(), 1_700_010_800);
    // The scheme is matched without regard to case.
    let lower = format!("bearer {}", token);
    assert_eq!(guard_at(&keys, Some(lower.as_str()), 1_700_000_100), Ok(claims));
    // Outside the window the same header is refused.
    assert_eq!(
        guard_at(&keys, Some(header.as_str()), 1_700_010_801),
        Err(BdfError::InvalidToken)
    );
}

#[test]
fn handler_runs_only_behind_the_guard() {
    let keys = keys();
    let token = keys.issue_at("karl", "rbi", 1_700_000_000).unwrap();
    let good = format!("Bearer {}", token);
    let basic = format!("Basic {}", token);
    let forged = format!("Bearer {}", alter_last(&token));
    let mut calls = 0;

    let refused = [None, Some(basic.as_str()), Some(forged.as_str()), Some(token.as_str())];
    for header in refused {
        let served = bdf::guard::protect_at(&keys, header, 1_700_000_000, |claims: Claims| {
            calls += 1;
            String::from(claims.org())
        });
        assert_eq!(served, Err(BdfError::InvalidToken));
    }
    assert_eq!(calls, 0);

    let late = bdf::guard::protect_at(&keys, Some(good.as_str()), 1_700_010_801, |_: Claims| {
        calls += 1;
    });
    assert_eq!(late, Err(BdfError::InvalidToken));
    assert_eq!(calls, 0);

    let served = bdf::guard::protect_at(&keys, Some(good.as_str()), 1_700_000_000, |claims: Claims| {
        calls += 1;
        String::from(claims.org())
    });
    assert_eq!(served, Ok(String::from("rbi")));
    assert_eq!(calls, 1);
}

#[test]
fn scheme_alone_carries_no_valid_token() {
    let keys = keys();
    for header in ["Bearer ", "Bearer  ", "bearer ", "Bearer\t", "Bearer", "Beare", "Bearer: x"] {
        assert_eq!(guard_at(&keys, Some(header), 1_700_000_000), Err(BdfError::InvalidToken));
    }
    let token = keys.issue_at("walter", "erste", 1_700_000_000).unwrap();
    let spaced = format!("BEARER   {}", token);
    assert!(guard_at(&keys, Some(spaced.as_str()), 1_700_000_000).is_ok());
    let unspaced = format!("Bearer{}", token);
    assert_eq!(
        guard_at(&keys, Some(unspaced.as_str()), 1_700_000_000),
        Err(BdfError::InvalidToken)
    );
    let umlaut = format!("Bearer {}\u{e4}", token);
    assert_eq!(
        guard_at(&keys, Some(umlaut.as_str()), 1_700_000_000),
        Err(BdfError::InvalidToken)
    );
}

#[test]
fn blanks_before_the_token_are_skipped() {
    let keys = keys();
    let token = keys.issue_at("walter", "erste", 1_700_000_000).unwrap();
    let expected = keys.verify_at(&token, 1_700_000_000).unwrap();
    for header in [
        format!("Bearer {}", token),
        format!("Bearer  {}", token),
        format!("Bearer \t {}", token),
        format!("bEaReR \t\t{}", token),
    ] {
        assert_eq!(guard_at(&keys, Some(header.as_str()), 1_700_000_000), Ok(expected.clone()));
    }
    for header in [
        format!("Bearer {} ", token),
        format!("Bearer {}\t", token),
        format!("Bearer\t{}", token),
        format!(" Bearer {}", token),
        format!("Bearer {}\u{7f}", token),
        format!("Bearer {}\n", token),
        format!("Bearer \u{1}{}", token),
        format!("Bearer \u{a0}{}", token),
        format!("Bearer x{}", token),
    ] {
        assert_eq!(
            guard_at(&keys, Some(header.as_str()), 1_700_000_000),
            Err(BdfError::InvalidToken)
        );
    }
}

#[test]
fn every_accepted_login_gets_a_token() {
    let mut store = CredentialStore::new();
    assert!(store.insert(User::new("x", "y", "")));
    assert!(store.insert(User::new("\u{e4}\"\\\n", " ", "org \u{1f600}")));
    for secret in [&b""[..], &b"k"[..], &[0u8, 255, 10, 0][..], &[7u8; 300][..]] {
        let keys = Keys::new(secret);
        for (id, pw, org) in [("x", "y", ""), ("\u{e4}\"\\\n", " ", "org \u{1f600}")] {
            for now in [i64::MIN, -1, 0, 1_700_000_000, i64::MAX - 10_800] {
                let response = authorize_at(&store, &keys, &AuthPayload::new(id, pw), now).unwrap();
                assert_eq!(response.token_type(), "Bearer");
                let claims = keys.verify_at(response.access_token(), now).unwrap();
                assert_eq!(claims.client_id(), id);
                assert_eq!(claims.org(), org);
                assert_eq!(claims.iat(), now);
                assert_eq!(claims.exp(), now + 10_800);
            }
        }
    }
}

#[test]
fn issued_token_passes_the_guard_through_its_window() {
    let store = CredentialStore::with_defaults();
    let keys = keys();
    let issued_at: i64 = 1_650_000_000;
    let response =
        authorize_at(&store, &keys, &AuthPayload::new("johannes", "verysecurepw"), issued_at)
            .unwrap();
    let header = format!("Bearer {}", response.access_token());
    for now in [issued_at, issued_at + 1, issued_at + 10_800] {
        let claims = guard_at(&keys, Some(header.as_str()), now).unwrap();
        assert_eq!(claims.client_id(), "johannes");
        assert_eq!(claims.org(), "oenb");
        assert_eq!(claims.iat(), issued_at);
        assert_eq!(claims.exp(), issued_at + 10_800);
    }
    for now in [issued_at - 1, issued_at + 10_801] {
        assert_eq!(guard_at(&keys, Some(header.as_str()), now), Err(BdfError::InvalidToken));
    }
}
