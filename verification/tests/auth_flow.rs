use registry_auth::challenge_from_probe;
use registry_auth::is_auth_outcome;
use registry_auth::Auth;
use registry_auth::AuthError;
use registry_auth::BasicAuth;
use registry_auth::BearerAuth;
use registry_auth::Client;
use registry_auth::ParseError;
use registry_auth::RegistryRequest;
use registry_auth::RequestAuthorization;
use registry_auth::WwwAuthenticateHeaderContent;

fn client_with_credentials() -> Client {
    Client::new(
        "http://localhost:5000".to_string(),
        Some(("user".to_string(), "secret".to_string())),
    )
}

#[test]
fn probe_url_appends_the_api_root() {
    let client = client_with_credentials();
    assert_eq!(client.probe_url(), "http://localhost:5000/v2/");
}

#[test]
fn begin_without_credentials_fails() {
    let mut client = Client::new("http://localhost:5000".to_string(), None);
    let r = client.begin_authenticate();
    assert!(matches!(r, Err(AuthError::NoCredentials)));
    assert!(client.auth.is_none());
}

#[test]
fn begin_clears_a_previously_held_credential() {
    let mut client = client_with_credentials();
    client.auth = Some(Auth::Basic(BasicAuth {
        user: "user".to_string(),
        password: Some("secret".to_string()),
    }));
    let r = client.begin_authenticate();
    assert!(r.is_ok());
    assert!(client.auth.is_none());
}

#[test]
fn missing_challenge_header_is_fatal() {
    let r = challenge_from_probe(&None);
    assert!(matches!(r, Err(AuthError::MissingChallenge)));
}

#[test]
fn malformed_challenge_header_is_fatal() {
    let r = challenge_from_probe(&Some(b"no scheme here".to_vec()));
    assert!(matches!(
        r,
        Err(AuthError::MalformedChallenge(ParseError::NoMethod))
    ));
}

#[test]
fn present_challenge_header_is_parsed() {
    let r = challenge_from_probe(&Some(b"Basic realm=\"Registry\"".to_vec()));
    assert!(matches!(r, Ok(WwwAuthenticateHeaderContent::Basic(_))));
}

#[test]
fn basic_challenge_succeeds_iff_verify_answers_200() {
    // Verifying probe grants access: the basic credential is adopted.
    let mut client = client_with_credentials();
    let creds = client.begin_authenticate().unwrap();
    let candidate = Auth::Basic(BasicAuth {
        user: creds.0.clone(),
        password: Some(creds.1.clone()),
    });
    assert!(client.finish_authenticate(candidate, 200).is_ok());
    match &client.auth {
        Some(Auth::Basic(b)) => {
            assert_eq!(b.user, "user");
            assert_eq!(b.password.as_deref(), Some("secret"));
        }
        other => panic!("expected a basic credential, got {:?}", other),
    }

    // Verifying probe still rejects: the attempt fails and nothing is kept.
    let mut client = client_with_credentials();
    let creds = client.begin_authenticate().unwrap();
    let candidate = Auth::Basic(BasicAuth {
        user: creds.0,
        password: Some(creds.1),
    });
    let r = client.finish_authenticate(candidate, 401);
    assert!(matches!(r, Err(AuthError::LoginFailed)));
    assert!(client.auth.is_none());
}

#[test]
fn sentinel_token_is_invalid_and_leaves_no_credential() {
    let mut client = client_with_credentials();
    client.begin_authenticate().unwrap();
    let r = BearerAuth::from_token_response(
        200,
        "unauthenticated".to_string(),
        None,
        None,
        None,
    );
    assert!(matches!(r, Err(AuthError::InvalidToken)));
    assert!(client.auth.is_none());
}

#[test]
fn empty_token_is_invalid_before_any_masking() {
    let r = BearerAuth::from_token_response(200, "".to_string(), None, None, None);
    assert!(matches!(r, Err(AuthError::InvalidToken)));
}

#[test]
fn non_200_token_endpoint_status_is_fatal() {
    let r = BearerAuth::from_token_response(403, "token".to_string(), None, None, None);
    assert!(matches!(r, Err(AuthError::TokenEndpointError(403))));
}

#[test]
fn accepted_token_reply_becomes_the_credential() {
    let b = BearerAuth::from_token_response(
        200,
        "abc123".to_string(),
        Some(300),
        Some("2020-06-18T09:04:24Z".to_string()),
        Some("refresh".to_string()),
    )
    .unwrap();
    assert_eq!(b.token, "abc123");
    assert_eq!(b.expires_in, Some(300));
    assert_eq!(b.issued_at.as_deref(), Some("2020-06-18T09:04:24Z"));
    assert_eq!(b.refresh_token.as_deref(), Some("refresh"));
}

#[test]
fn is_auth_outcome_matches_the_status() {
    assert_eq!(is_auth_outcome(200).unwrap(), true);
    assert_eq!(is_auth_outcome(401).unwrap(), false);
    assert!(matches!(
        is_auth_outcome(500),
        Err(AuthError::UnexpectedStatus(500))
    ));
}

#[test]
fn repeating_the_attempt_adopts_the_same_credential_variant() {
    let mut first: Option<&'static str> = None;
    let mut second: Option<&'static str> = None;
    for round in [0, 1] {
        let mut client = client_with_credentials();
        let creds = client.begin_authenticate().unwrap();
        let challenge = challenge_from_probe(&Some(b"Basic realm=\"Registry\"".to_vec())).unwrap();
        let candidate = match challenge {
            WwwAuthenticateHeaderContent::Basic(_) => Auth::Basic(BasicAuth {
                user: creds.0,
                password: Some(creds.1),
            }),
            WwwAuthenticateHeaderContent::Bearer(_) => panic!("unexpected bearer challenge"),
        };
        client.finish_authenticate(candidate, 200).unwrap();
        let variant = match client.auth {
            Some(Auth::Basic(_)) => "basic",
            Some(Auth::Bearer(_)) => "bearer",
            None => "none",
        };
        if round == 0 {
            first = Some(variant);
        } else {
            second = Some(variant);
        }
    }
    assert_eq!(first.unwrap(), "basic");
    assert_eq!(second.unwrap(), "basic");
}

#[test]
fn mask_keeps_boundaries_and_length() {
    assert_eq!(registry_auth::mask_token("a"), "*");
    assert_eq!(registry_auth::mask_token("ab"), "ab");
    assert_eq!(registry_auth::mask_token("abc"), "a*c");
    assert_eq!(registry_auth::mask_token("abcdef"), "a****f");
}

#[test]
fn add_auth_headers_attaches_the_bearer_token() {
    let auth = Auth::Bearer(
        BearerAuth::from_token_response(200, "abc123".to_string(), None, None, None).unwrap(),
    );
    let request = auth.add_auth_headers(RegistryRequest::new("http://localhost:5000/v2/".to_string()));
    assert_eq!(request.url, "http://localhost:5000/v2/");
    match request.authorization {
        Some(RequestAuthorization::Bearer(token)) => assert_eq!(token, "abc123"),
        other => panic!("expected a bearer authorization, got {:?}", other),
    }
}

#[test]
fn add_auth_headers_attaches_user_and_password() {
    let auth = Auth::Basic(BasicAuth::from_credentials(
        "user".to_string(),
        "secret".to_string(),
    ));
    let request = auth.add_auth_headers(RegistryRequest::new("http://localhost:5000/v2/".to_string()));
    assert_eq!(request.url, "http://localhost:5000/v2/");
    match request.authorization {
        Some(RequestAuthorization::Basic(user, password)) => {
            assert_eq!(user, "user");
            assert_eq!(password.as_deref(), Some("secret"));
        }
        other => panic!("expected a basic authorization, got {:?}", other),
    }
}
