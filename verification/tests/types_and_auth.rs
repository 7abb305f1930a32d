use speedskating_backend::auth::{
    auth_reply, authenticate_pin, authenticate_pin_at, generate_nats_jwt, invalid_format_reply,
    permission_grants, pin_is_well_formed, token_expiry, user_jwt_at, AuthConfig, NatsPermissions,
    PinConfig, SigningKey,
};
use speedskating_backend::types::{
    default_active_high, default_limit, state_label, AuthResponse, ErrorResponse,
    GpioConfig, GpioDebounceConfig, ListRunsRequest, StopwatchState,
};

fn strings(v: &[&str]) -> Vec<String> {
    v.iter().map(|s| s.to_string()).collect()
}

#[test]
fn invalid_transition_message() {
    let e = ErrorResponse::invalid_transition(StopwatchState::Running, "arm");
    assert_eq!(e.error, "Cannot arm from Running state");
    assert_eq!(e.code, "INVALID_TRANSITION");
    let n = ErrorResponse::new("x".to_string(), "Y".to_string());
    assert_eq!(n.error, "x");
    assert_eq!(n.code, "Y");
}

#[test]
fn state_labels_and_defaults() {
    assert_eq!(state_label(StopwatchState::Disarmed), "Disarmed");
    assert_eq!(state_label(StopwatchState::Armed), "Armed");
    assert_eq!(state_label(StopwatchState::Running), "Running");
    assert_eq!(StopwatchState::default(), StopwatchState::Disarmed);
    assert_eq!(default_limit(), 100);
    assert!(default_active_high());
    let req = ListRunsRequest::default();
    assert_eq!(req.limit, 0);
    assert_eq!(req.offset, 0);
    let d = GpioDebounceConfig::default();
    assert_eq!(d.quiet_period_ms, 200);
    assert_eq!(d.max_wait_ms, 3000);
    let g = GpioConfig::default();
    assert_eq!(g.chip, "/dev/gpiochip0");
    assert_eq!(g.pins.len(), 1);
    assert_eq!(g.pins[0].pin, 1);
    assert_eq!(g.pins[0].name, "Start/Finish Line");
    assert!(g.pins[0].active_high);
}

#[test]
fn auth_response_constructors() {
    assert_eq!(AuthResponse::jwt("t".to_string()), AuthResponse::Jwt { jwt: "t".to_string() });
    assert_eq!(
        AuthResponse::error("e".to_string(), "C".to_string()),
        AuthResponse::Error { error: "e".to_string(), code: "C".to_string() }
    );
    let from = AuthResponse::from_error_response(ErrorResponse::new("m".to_string(), "K".to_string()));
    assert_eq!(from, AuthResponse::Error { error: "m".to_string(), code: "K".to_string() });
}

#[test]
fn default_auth_config_is_admin_pin() {
    let c = AuthConfig::default();
    assert_eq!(c.pins.len(), 1);
    assert_eq!(c.pins[0].pin, "1234");
    assert_eq!(c.pins[0].permissions.publish, strings(&[">"]));
    assert_eq!(c.pins[0].permissions.subscribe, strings(&[">"]));
    let p = NatsPermissions::default();
    assert!(p.publish.is_empty() && p.subscribe.is_empty());
}

#[test]
fn grants_with_wildcard() {
    let p = NatsPermissions { publish: strings(&["a", ">"]), subscribe: strings(&[">", "b"]) };
    let (publish, subscribe) = permission_grants(&p);
    assert_eq!(publish, strings(&[">"]));
    assert_eq!(subscribe, strings(&[">"]));
}

#[test]
fn grants_without_wildcard_add_inbox() {
    let p = NatsPermissions { publish: strings(&["a.b", "c"]), subscribe: strings(&["x.>"]) };
    let (publish, subscribe) = permission_grants(&p);
    assert_eq!(publish, strings(&["a.b", "c"]));
    assert_eq!(subscribe, strings(&["x.>", "_INBOX.>"]));
    let q = NatsPermissions { publish: vec![], subscribe: strings(&["_INBOX.>", "y"]) };
    let (publish, subscribe) = permission_grants(&q);
    assert!(publish.is_empty());
    assert_eq!(subscribe, strings(&["_INBOX.>", "y"]));
    let (_, only_inbox) = permission_grants(&NatsPermissions::default());
    assert_eq!(only_inbox, strings(&["_INBOX.>"]));
}

#[test]
fn pin_format() {
    assert!(pin_is_well_formed("1234"));
    assert!(pin_is_well_formed("0000"));
    assert!(pin_is_well_formed("123456"));
    assert!(!pin_is_well_formed("123"));
    assert!(!pin_is_well_formed("12345"));
    assert!(!pin_is_well_formed("1234567"));
    assert!(!pin_is_well_formed("12345a"));
    assert!(!pin_is_well_formed("12a4"));
    assert!(!pin_is_well_formed("١٢٣٤"));
    assert!(!pin_is_well_formed(""));
}

#[test]
fn authenticate_known_pin_issues_token() {
    let account = nats_jwt::KeyPair::new_account();
    let user = nats_jwt::KeyPair::new_user();
    let config = AuthConfig::default();
    let key = SigningKey::new(&account).unwrap();
    let jwt = authenticate_pin("1234", &config, &key, &user.public_key()).unwrap();
    let parts: Vec<&str> = jwt.split('.').collect();
    assert_eq!(parts.len(), 3);
    assert_eq!(parts[0], "eyJ0eXAiOiJKV1QiLCJhbGciOiJlZDI1NTE5LW5rZXkifQ");
    assert!(!parts[1].is_empty());
    assert_eq!(parts[2].len(), 86);
    let b64 = |c: char| c.is_ascii_alphanumeric() || c == '-' || c == '_';
    assert!(parts[1].chars().all(b64) && parts[2].chars().all(b64));
}

#[test]
fn authenticate_rejects_unknown_or_malformed_pin() {
    let account = nats_jwt::KeyPair::new_account();
    let key = SigningKey::new(&account).unwrap();
    let config = AuthConfig {
        pins: vec![PinConfig { pin: "5678".to_string(), permissions: NatsPermissions::default() }],
    };
    assert_eq!(authenticate_pin("1234", &config, &key, "U"), None);
    assert_eq!(authenticate_pin("56789", &config, &key, "U"), None);
    assert_eq!(authenticate_pin("56a8", &config, &key, "U"), None);
    assert!(authenticate_pin("5678", &config, &key, "U").is_some());
}

#[test]
fn authenticate_six_digit_pin() {
    let account = nats_jwt::KeyPair::new_account();
    let key = SigningKey::new(&account).unwrap();
    let config = AuthConfig {
        pins: vec![PinConfig {
            pin: "123456".to_string(),
            permissions: NatsPermissions { publish: strings(&["p"]), subscribe: vec![] },
        }],
    };
    let jwt = authenticate_pin_at("123456", &config, &key, "U6", 100).unwrap();
    let claims = jwt_claims(&jwt);
    assert_eq!(claims["sub"].as_str(), Some("U6"));
    assert_eq!(string_list(&claims["nats"]["pub"]["allow"]), strings(&["p"]));
    assert_eq!(authenticate_pin_at("12345", &config, &key, "U6", 100), None);
}

#[test]
fn first_matching_pin_entry_grants_the_token() {
    let account = nats_jwt::KeyPair::new_account();
    let key = SigningKey::new(&account).unwrap();
    let config = AuthConfig {
        pins: vec![
            PinConfig {
                pin: "1111".to_string(),
                permissions: NatsPermissions { publish: strings(&["first"]), subscribe: vec![] },
            },
            PinConfig {
                pin: "2222".to_string(),
                permissions: NatsPermissions { publish: strings(&["second"]), subscribe: vec![] },
            },
            PinConfig {
                pin: "2222".to_string(),
                permissions: NatsPermissions { publish: strings(&["third"]), subscribe: vec![] },
            },
        ],
    };
    let jwt = authenticate_pin_at("2222", &config, &key, "U", 0).unwrap();
    assert_eq!(string_list(&jwt_claims(&jwt)["nats"]["pub"]["allow"]), strings(&["second"]));
}

#[test]
fn key_without_seed_cannot_sign() {
    let account = nats_jwt::KeyPair::new_account();
    let public_only = nats_jwt::KeyPair::from_public_key(&account.public_key()).unwrap();
    assert!(SigningKey::new(&public_only).is_none());
    let key = SigningKey::new(&account).unwrap();
    assert_eq!(key.public_key(), account.public_key());
    let jwt = generate_nats_jwt(&key, "U", &NatsPermissions::default());
    assert_eq!(jwt.split('.').count(), 3);
}

fn base64url_value(c: u8) -> u32 {
    match c {
        b'A'..=b'Z' => (c - b'A') as u32,
        b'a'..=b'z' => (c - b'a') as u32 + 26,
        b'0'..=b'9' => (c - b'0') as u32 + 52,
        b'-' => 62,
        b'_' => 63,
        _ => panic!("not a base64url character"),
    }
}

fn base64url_decode(s: &str) -> Vec<u8> {
    let mut out = Vec::new();
    let mut acc: u32 = 0;
    let mut bits = 0;
    for c in s.bytes() {
        acc = (acc << 6) | base64url_value(c);
        bits += 6;
        if bits >= 8 {
            bits -= 8;
            out.push((acc >> bits) as u8);
            acc &= (1 << bits) - 1;
        }
    }
    out
}

fn jwt_claims(jwt: &str) -> serde_json::Value {
    let body = jwt.split('.').nth(1).unwrap();
    serde_json::from_slice(&base64url_decode(body)).unwrap()
}

fn string_list(v: &serde_json::Value) -> Vec<String> {
    v.as_array().unwrap().iter().map(|s| s.as_str().unwrap().to_string()).collect()
}

#[test]
fn issued_token_carries_its_claims() {
    let account = nats_jwt::KeyPair::new_account();
    let key = SigningKey::new(&account).unwrap();
    let perms = NatsPermissions { publish: strings(&["a.b", "c"]), subscribe: strings(&["x.>"]) };
    let jwt = user_jwt_at(&key, "UABC", &perms, 1_000);
    let claims = jwt_claims(&jwt);
    assert_eq!(claims["sub"].as_str(), Some("UABC"));
    assert_eq!(claims["name"].as_str(), Some("UABC"));
    assert_eq!(claims["iss"].as_str(), Some(account.public_key().as_str()));
    assert_eq!(claims["exp"].as_i64(), Some(15_400));
    assert_eq!(claims["nats"]["type"].as_str(), Some("user"));
    assert_eq!(claims["nats"]["issuer_account"].as_str(), Some(account.public_key().as_str()));
    assert_eq!(claims["nats"]["bearer_token"].as_bool(), Some(true));
    assert_eq!(claims["nats"]["subs"].as_i64(), Some(-1));
    assert_eq!(claims["nats"]["data"].as_i64(), Some(-1));
    assert_eq!(claims["nats"]["payload"].as_i64(), Some(-1));
    assert_eq!(string_list(&claims["nats"]["pub"]["allow"]), strings(&["a.b", "c"]));
    assert_eq!(string_list(&claims["nats"]["sub"]["allow"]), strings(&["x.>", "_INBOX.>"]));
}

#[test]
fn wildcard_token_grants_everything() {
    let account = nats_jwt::KeyPair::new_account();
    let key = SigningKey::new(&account).unwrap();
    let jwt = user_jwt_at(&key, "U", &AuthConfig::default().pins[0].permissions, 0);
    let claims = jwt_claims(&jwt);
    assert_eq!(string_list(&claims["nats"]["pub"]["allow"]), strings(&[">"]));
    assert_eq!(string_list(&claims["nats"]["sub"]["allow"]), strings(&[">"]));
    assert_eq!(claims["exp"].as_i64(), Some(14_400));
}

#[test]
fn token_expiry_saturates() {
    assert_eq!(token_expiry(0), 14_400);
    assert_eq!(token_expiry(i64::MAX - 14_400), i64::MAX);
    assert_eq!(token_expiry(i64::MAX - 10), i64::MAX);
    assert_eq!(token_expiry(-20_000), -5_600);
}

#[test]
fn auth_replies() {
    assert_eq!(auth_reply(Some("tok".to_string())), AuthResponse::Jwt { jwt: "tok".to_string() });
    assert_eq!(
        auth_reply(None),
        AuthResponse::Error { error: "Invalid PIN code".to_string(), code: "INVALID_PIN".to_string() }
    );
    assert_eq!(
        invalid_format_reply("bad byte"),
        AuthResponse::Error {
            error: "Invalid PIN format: bad byte".to_string(),
            code: "INVALID_FORMAT".to_string()
        }
    );
}
