use registry_auth::ParseError;
use registry_auth::WwwAuthenticateHeaderContent;
use registry_auth::WwwAuthenticateHeaderContentBasic;
use registry_auth::WwwAuthenticateHeaderContentBearer;

#[test]
fn bearer_realm_parses_correctly() {
    let realm = "https://sat-r220-02.lab.eng.rdu2.redhat.com/v2/token";
    let service = "sat-r220-02.lab.eng.rdu2.redhat.com";
    let scope = "repository:registry:pull,push";

    let header_value = format!(
        "Bearer realm=\"{}\",service=\"{}\",scope=\"{}\"",
        realm, service, scope
    );

    let content =
        WwwAuthenticateHeaderContent::from_www_authentication_header(header_value.as_bytes())
            .unwrap();

    assert_eq!(
        WwwAuthenticateHeaderContent::Bearer(WwwAuthenticateHeaderContentBearer {
            realm: realm.to_string(),
            service: Some(service.to_string()),
            scope: Some(scope.to_string()),
        }),
        content
    );
}

#[test]
fn basic_realm_parses_correctly() {
    let realm = "Registry realm";

    let header_value = format!("Basic realm=\"{}\"", realm);

    let content =
        WwwAuthenticateHeaderContent::from_www_authentication_header(header_value.as_bytes())
            .unwrap();

    assert_eq!(
        WwwAuthenticateHeaderContent::Basic(WwwAuthenticateHeaderContentBasic {
            realm: realm.to_string(),
        }),
        content
    );
}

#[test]
fn bearer_with_short_values_parses() {
    let content =
        WwwAuthenticateHeaderContent::from_www_authentication_header(
            "Bearer realm=\"R\",service=\"S\",scope=\"SC\"".as_bytes(),
        )
        .unwrap();

    assert_eq!(
        WwwAuthenticateHeaderContent::Bearer(WwwAuthenticateHeaderContentBearer {
            realm: "R".to_string(),
            service: Some("S".to_string()),
            scope: Some("SC".to_string()),
        }),
        content
    );
}

#[test]
fn header_without_scheme_is_rejected() {
    let r = WwwAuthenticateHeaderContent::from_www_authentication_header(
        "realm=\"R\",service=\"S\"".as_bytes(),
    );
    assert!(matches!(r, Err(ParseError::NoMethod)));
}

#[test]
fn lowercase_scheme_token_is_not_recognized() {
    let r = WwwAuthenticateHeaderContent::from_www_authentication_header(
        "bearer realm=\"R\"".as_bytes(),
    );
    assert!(matches!(r, Err(ParseError::NoMethod)));
}

#[test]
fn bearer_without_realm_is_rejected() {
    let r = WwwAuthenticateHeaderContent::from_www_authentication_header(
        "Bearer service=\"S\",scope=\"SC\"".as_bytes(),
    );
    match r {
        Err(ParseError::MissingRequiredField(field)) => assert_eq!(field, "realm"),
        other => panic!("expected a missing-field error, got {:?}", other),
    }
}

#[test]
fn basic_without_realm_is_rejected() {
    let r = WwwAuthenticateHeaderContent::from_www_authentication_header("Basic".as_bytes());
    match r {
        Err(ParseError::MissingRequiredField(field)) => assert_eq!(field, "realm"),
        other => panic!("expected a missing-field error, got {:?}", other),
    }
}

#[test]
fn invalid_utf8_is_rejected() {
    let bytes: Vec<u8> = vec![0x42, 0xff, 0xfe];
    let r = WwwAuthenticateHeaderContent::from_www_authentication_header(&bytes);
    assert!(matches!(r, Err(ParseError::InvalidEncoding)));
}

#[test]
fn non_ascii_realm_is_decoded() {
    let content = WwwAuthenticateHeaderContent::from_www_authentication_header(
        "Basic realm=\"R\u{eb}gistry\"".as_bytes(),
    )
    .unwrap();
    assert_eq!(
        WwwAuthenticateHeaderContent::Basic(WwwAuthenticateHeaderContentBasic {
            realm: "R\u{eb}gistry".to_string(),
        }),
        content
    );
}

#[test]
fn unknown_keys_are_ignored() {
    let content = WwwAuthenticateHeaderContent::from_www_authentication_header(
        "Bearer realm=\"R\",error=\"insufficient_scope\"".as_bytes(),
    )
    .unwrap();
    assert_eq!(
        WwwAuthenticateHeaderContent::Bearer(WwwAuthenticateHeaderContentBearer {
            realm: "R".to_string(),
            service: None,
            scope: None,
        }),
        content
    );
}

#[test]
fn duplicate_key_first_occurrence_wins() {
    let content = WwwAuthenticateHeaderContent::from_www_authentication_header(
        "Basic realm=\"first\",realm=\"second\"".as_bytes(),
    )
    .unwrap();
    assert_eq!(
        WwwAuthenticateHeaderContent::Basic(WwwAuthenticateHeaderContentBasic {
            realm: "first".to_string(),
        }),
        content
    );
}

#[test]
fn whitespace_around_equals_is_tolerated() {
    let content = WwwAuthenticateHeaderContent::from_www_authentication_header(
        "Basic realm = \"Registry\"".as_bytes(),
    )
    .unwrap();
    assert_eq!(
        WwwAuthenticateHeaderContent::Basic(WwwAuthenticateHeaderContentBasic {
            realm: "Registry".to_string(),
        }),
        content
    );
}

#[test]
fn auth_ep_with_service_and_no_scopes() {
    let bearer = WwwAuthenticateHeaderContentBearer {
        realm: "https://host/token".to_string(),
        service: Some("registry.example.com".to_string()),
        scope: None,
    };
    assert_eq!(
        bearer.auth_ep(&Vec::new()),
        "https://host/token?service=registry.example.com"
    );
}

#[test]
fn auth_ep_without_service_or_scopes_is_the_realm() {
    let bearer = WwwAuthenticateHeaderContentBearer {
        realm: "https://host/token".to_string(),
        service: None,
        scope: None,
    };
    assert_eq!(bearer.auth_ep(&Vec::new()), "https://host/token");
}

#[test]
fn auth_ep_with_one_scope_and_no_service() {
    let bearer = WwwAuthenticateHeaderContentBearer {
        realm: "https://host/token".to_string(),
        service: None,
        scope: None,
    };
    let scopes = vec!["repository:foo:pull".to_string()];
    assert_eq!(
        bearer.auth_ep(&scopes),
        "https://host/token?scope=repository:foo:pull"
    );
}

#[test]
fn auth_ep_with_one_scope_and_service() {
    let bearer = WwwAuthenticateHeaderContentBearer {
        realm: "https://host/token".to_string(),
        service: Some("svc".to_string()),
        scope: None,
    };
    let scopes = vec!["a".to_string()];
    assert_eq!(bearer.auth_ep(&scopes), "https://host/token?service=svc&scope=a");
}

#[test]
fn auth_ep_joins_later_scopes_with_separator_only_after_the_second() {
    let bearer = WwwAuthenticateHeaderContentBearer {
        realm: "https://host/token".to_string(),
        service: Some("svc".to_string()),
        scope: None,
    };
    let scopes = vec!["a".to_string(), "b".to_string(), "c".to_string()];
    assert_eq!(
        bearer.auth_ep(&scopes),
        "https://host/token?service=svc&scope=ascope=b&scope=c"
    );
}

#[test]
fn auth_ep_runs_first_two_scopes_together_without_service() {
    let bearer = WwwAuthenticateHeaderContentBearer {
        realm: "https://host/token".to_string(),
        service: None,
        scope: None,
    };
    let scopes = vec!["a".to_string(), "b".to_string()];
    assert_eq!(bearer.auth_ep(&scopes), "https://host/token?scope=ascope=b");
}
