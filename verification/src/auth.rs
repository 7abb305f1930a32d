//! PIN authentication and the permissions of the NATS tokens it issues.

use vstd::prelude::*;
use vstd::string::StringExecFns;
use crate::text::{contains_str, copy_string, owned, str_equal, string_views};
use crate::types::AuthResponse;
use crate::wall_clock::{is_calendar_seconds, unix_now_secs};

verus! {

#[verifier::external_type_specification]
#[verifier::external_body]
pub struct ExKeyPair(nats_jwt::KeyPair);

/// Subjects a NATS user may publish to and subscribe to (wildcards allowed).
#[derive(Debug, Clone, PartialEq, Eq)]
pub struct NatsPermissions {
    pub publish: Vec<String>,
    pub subscribe: Vec<String>,
}

impl Default for NatsPermissions {
    fn default() -> (r: Self)
        ensures
            r.publish@.len() == 0,
            r.subscribe@.len() == 0,
    {
        NatsPermissions { publish: Vec::new(), subscribe: Vec::new() }
    }
}

/// A PIN and the permissions that it grants.
#[derive(Debug, Clone, PartialEq, Eq)]
pub struct PinConfig {
    pub pin: String,
    pub permissions: NatsPermissions,
}

/// The authentication configuration: the accepted PINs.
#[derive(Debug, Clone, PartialEq, Eq)]
pub struct AuthConfig {
    pub pins: Vec<PinConfig>,
}

impl Default for AuthConfig {
    /// One admin PIN, `1234`, allowed to publish and subscribe to everything.
    fn default() -> (r: Self)
        ensures
            r.pins@.len() == 1,
            r.pins@[0].pin@ == "1234"@,
            string_views(r.pins@[0].permissions.publish@) == seq![">"@],
            string_views(r.pins@[0].permissions.subscribe@) == seq![">"@],
    {
        let mut publish: Vec<String> = Vec::new();
        publish.push(owned(">"));
        let mut subscribe: Vec<String> = Vec::new();
        subscribe.push(owned(">"));
        let mut pins: Vec<PinConfig> = Vec::new();
        pins.push(PinConfig { pin: owned("1234"), permissions: NatsPermissions { publish, subscribe } });
        let r = AuthConfig { pins };
        assert(string_views(r.pins@[0].permissions.publish@) =~= seq![">"@]);
        assert(string_views(r.pins@[0].permissions.subscribe@) =~= seq![">"@]);
        r
    }
}

// ---------------------------------------------------------------------------
// Permissions of an issued token
// ---------------------------------------------------------------------------

/// The wildcard that matches every subject.
pub open spec fn all_subjects() -> Seq<char> {
    ">"@
}

/// The subjects of request replies, always subscribable.
pub open spec fn inbox_subjects() -> Seq<char> {
    "_INBOX.>"@
}

/// The publish grants of a token: none for no subjects, the single wildcard when the
/// wildcard is among them, else the subjects in order.
pub open spec fn publish_grants(p: Seq<Seq<char>>) -> Seq<Seq<char>> {
    if p.len() == 0 {
        seq![]
    } else if p.contains(all_subjects()) {
        seq![all_subjects()]
    } else {
        p
    }
}

/// The subscribe subjects with the reply inbox added at the end when missing.
pub open spec fn with_inbox(s: Seq<Seq<char>>) -> Seq<Seq<char>> {
    if s.contains(inbox_subjects()) {
        s
    } else {
        s.push(inbox_subjects())
    }
}

/// The subscribe grants of a token: the single wildcard when the wildcard is among the
/// subjects, else the subjects in order with the reply inbox.
pub open spec fn subscribe_grants(s: Seq<Seq<char>>) -> Seq<Seq<char>> {
    if with_inbox(s).contains(all_subjects()) {
        seq![all_subjects()]
    } else {
        with_inbox(s)
    }
}

/// The subjects a token for `permissions` allows to publish to and to subscribe to, in
/// the order they are granted.
pub fn permission_grants(permissions: &NatsPermissions) -> (r: (Vec<String>, Vec<String>))
    ensures
        string_views(r.0@) == publish_grants(string_views(permissions.publish@)),
        string_views(r.1@) == subscribe_grants(string_views(permissions.subscribe@)),
{
    let mut publish: Vec<String> = Vec::new();
    if permissions.publish.len() > 0 {
        if contains_str(&permissions.publish, ">") {
            publish.push(owned(">"));
            assert(string_views(publish@) =~= seq![all_subjects()]);
        } else {
            publish = crate::text::copy_strings(&permissions.publish);
        }
    } else {
        assert(string_views(publish@) =~= Seq::<Seq<char>>::empty());
    }
    let mut subscribe_perms = crate::text::copy_strings(&permissions.subscribe);
    if !contains_str(&subscribe_perms, "_INBOX.>") {
        let ghost before = subscribe_perms@;
        subscribe_perms.push(owned("_INBOX.>"));
        assert(string_views(subscribe_perms@) =~= string_views(before).push(inbox_subjects()));
    }
    let mut subscribe: Vec<String> = Vec::new();
    if contains_str(&subscribe_perms, ">") {
        subscribe.push(owned(">"));
        assert(string_views(subscribe@) =~= seq![all_subjects()]);
    } else {
        subscribe = subscribe_perms;
    }
    (publish, subscribe)
}

/// Every subject a token grants to publish to was asked for.
pub proof fn lemma_publish_grants_never_widen(p: Seq<Seq<char>>)
    ensures
        forall|i: int| 0 <= i < publish_grants(p).len() ==> p.contains(#[trigger] publish_grants(p)[i]),
{
    if p.len() > 0 && p.contains(all_subjects()) {
        assert(publish_grants(p)[0] == all_subjects());
    }
}

/// A token can always subscribe to request replies: its subscribe grants hold the reply
/// inbox, or are the single wildcard.
pub proof fn lemma_subscribe_grants_allow_replies(s: Seq<Seq<char>>)
    ensures
        subscribe_grants(s).contains(inbox_subjects()) || subscribe_grants(s) == seq![all_subjects()],
{
    if !s.contains(inbox_subjects()) {
        assert(s.push(inbox_subjects())[s.len() as int] == inbox_subjects());
    }
}

// ---------------------------------------------------------------------------
// Token building (nats_jwt)
// ---------------------------------------------------------------------------

/// What a user token holds while it is built: the issuing account, the user it is for,
/// its friendly name, its limits, whether it is a bearer token, its expiry (Unix
/// seconds) and the subjects it allows to publish to and to subscribe to, in order.
pub struct TokenClaims {
    pub issuer_account: Seq<char>,
    pub subject: Seq<char>,
    pub name: Option<Seq<char>>,
    pub max_data: i64,
    pub max_payload: i64,
    pub max_subscriptions: i64,
    pub bearer: bool,
    pub expires: Option<i64>,
    pub publish: Seq<Seq<char>>,
    pub subscribe: Seq<Seq<char>>,
}

/// What a signed JWT carries: the public key of the key that signed it and the claims of
/// the token that was signed.
pub struct JwtClaims {
    pub issuer: Seq<char>,
    pub claims: TokenClaims,
}

/// A fresh user token: for `subject`, issued by account `issuer_account`, no name, no
/// limits (-1), not a bearer token, no expiry, no subjects allowed.
pub open spec fn new_user_claims(issuer_account: Seq<char>, subject: Seq<char>) -> TokenClaims {
    TokenClaims {
        issuer_account,
        subject,
        name: None,
        max_data: -1i64,
        max_payload: -1i64,
        max_subscriptions: -1i64,
        bearer: false,
        expires: None,
        publish: seq![],
        subscribe: seq![],
    }
}

/// The claims of a token issued for user `user` by account `issuer`: named after the
/// user, unlimited in data, payload and subscriptions, a bearer token, expiring at
/// `expires`, with the grants of `publish_grants` and `subscribe_grants`.
pub open spec fn user_token_claims(
    issuer: Seq<char>,
    user: Seq<char>,
    expires: i64,
    publish: Seq<Seq<char>>,
    subscribe: Seq<Seq<char>>,
) -> TokenClaims {
    TokenClaims {
        issuer_account: issuer,
        subject: user,
        name: Some(user),
        max_data: -1i64,
        max_payload: -1i64,
        max_subscriptions: -1i64,
        bearer: true,
        expires: Some(expires),
        publish: publish_grants(publish),
        subscribe: subscribe_grants(subscribe),
    }
}

/// What a JWT issued by `issuer` for user `user`, expiring at `expires`, carries: the
/// issuer and the claims of `user_token_claims` for `permissions`.
pub open spec fn issued_jwt_claims(
    issuer: Seq<char>,
    user: Seq<char>,
    expires: i64,
    permissions: NatsPermissions,
) -> JwtClaims {
    JwtClaims {
        issuer,
        claims: user_token_claims(
            issuer,
            user,
            expires,
            string_views(permissions.publish@),
            string_views(permissions.subscribe@),
        ),
    }
}

/// A user token being built, held as the crate's `Token<User>` in a private field that
/// only the wrappers below read. `token_claims` names what it holds.
#[verifier::external_body]
pub struct UserToken {
    token: nats_jwt::Token<nats_jwt::User>,
}

/// What a user token being built holds.
pub uninterp spec fn token_claims(t: UserToken) -> TokenClaims;

/// What a signed JWT carries, decoded from its text.
pub uninterp spec fn signed_claims(jwt: Seq<char>) -> JwtClaims;

/// A key pair that can sign (one that holds its seed), with its public key.
pub struct SigningKey<'a> {
    key: &'a nats_jwt::KeyPair,
    public_key: String,
}

/// `nkeys::KeyPair::seed`, tested for success: whether the key pair holds its seed.
/// Nothing is claimed: the key pair is opaque here.
#[verifier::external_body]
fn key_has_seed(key: &nats_jwt::KeyPair) -> bool {
    key.seed().is_ok()
}

/// `nkeys::KeyPair::public_key`: the encoded public key of the pair. Nothing is claimed
/// of it: the key pair is opaque here.
#[verifier::external_body]
fn public_key_of(key: &nats_jwt::KeyPair) -> String {
    key.public_key()
}

impl<'a> SigningKey<'a> {
    /// The public key of the signing key, as it names the issuer of the tokens it signs.
    pub closed spec fn issuer(&self) -> Seq<char> {
        self.public_key@
    }

    /// The signing key of `key`, or `None` when the key pair holds no seed and so
    /// cannot sign.
    pub fn new(key: &'a nats_jwt::KeyPair) -> Option<SigningKey<'a>> {
        if key_has_seed(key) {
            Some(SigningKey { key, public_key: public_key_of(key) })
        } else {
            None
        }
    }

    /// The public key of the signing key.
    pub fn public_key(&self) -> (r: String)
        ensures
            r@ == self.issuer(),
    {
        copy_string(&self.public_key)
    }
}

/// `nats_jwt::Token::new_user`: a user token issued by account `issuer_account_id` for
/// user `user_key_pub`, as `Token::new` sets it up: no name, limits -1, not a bearer
/// token, no expiry, no subject allowed.
#[verifier::external_body]
fn token_new_user(issuer_account_id: String, user_key_pub: &str) -> (r: UserToken)
    ensures
        token_claims(r) == new_user_claims(issuer_account_id@, user_key_pub@),
{
    UserToken { token: nats_jwt::Token::new_user(issuer_account_id, user_key_pub) }
}

/// `nats_jwt::Token::name`: sets the token's friendly name.
#[verifier::external_body]
fn token_name(t: UserToken, name: &str) -> (r: UserToken)
    ensures
        token_claims(r) == (TokenClaims { name: Some(name@), ..token_claims(t) }),
{
    UserToken { token: t.token.name(name) }
}

/// `nats_jwt::Token::max_data`: sets the data limit.
#[verifier::external_body]
fn token_max_data(t: UserToken, v: i64) -> (r: UserToken)
    ensures
        token_claims(r) == (TokenClaims { max_data: v, ..token_claims(t) }),
{
    UserToken { token: t.token.max_data(v) }
}

/// `nats_jwt::Token::max_payload`: sets the payload limit.
#[verifier::external_body]
fn token_max_payload(t: UserToken, v: i64) -> (r: UserToken)
    ensures
        token_claims(r) == (TokenClaims { max_payload: v, ..token_claims(t) }),
{
    UserToken { token: t.token.max_payload(v) }
}

/// `nats_jwt::Token::max_subscriptions`: sets the subscription limit.
#[verifier::external_body]
fn token_max_subscriptions(t: UserToken, v: i64) -> (r: UserToken)
    ensures
        token_claims(r) == (TokenClaims { max_subscriptions: v, ..token_claims(t) }),
{
    UserToken { token: t.token.max_subscriptions(v) }
}

/// `nats_jwt::Token::bearer_token`: sets whether the token is a bearer token.
#[verifier::external_body]
fn token_bearer(t: UserToken, v: bool) -> (r: UserToken)
    ensures
        token_claims(r) == (TokenClaims { bearer: v, ..token_claims(t) }),
{
    UserToken { token: t.token.bearer_token(v) }
}

/// `nats_jwt::Token::expires`: sets the expiry (Unix seconds).
#[verifier::external_body]
fn token_expires(t: UserToken, at: i64) -> (r: UserToken)
    ensures
        token_claims(r) == (TokenClaims { expires: Some(at), ..token_claims(t) }),
{
    UserToken { token: t.token.expires(at) }
}

/// `nats_jwt::Token::allow_publish`: appends a subject the user may publish to.
#[verifier::external_body]
fn token_allow_publish(t: UserToken, subject: &str) -> (r: UserToken)
    ensures
        token_claims(r) == (TokenClaims {
            publish: token_claims(t).publish.push(subject@),
            ..token_claims(t)
        }),
{
    UserToken { token: t.token.allow_publish(subject) }
}

/// `nats_jwt::Token::allow_subscribe`: appends a subject the user may subscribe to.
#[verifier::external_body]
fn token_allow_subscribe(t: UserToken, subject: &str) -> (r: UserToken)
    ensures
        token_claims(r) == (TokenClaims {
            subscribe: token_claims(t).subscribe.push(subject@),
            ..token_claims(t)
        }),
{
    UserToken { token: t.token.allow_subscribe(subject) }
}

/// A character of the URL-safe base64 alphabet.
pub open spec fn is_base64url_char(c: char) -> bool {
    ('A' <= c && c <= 'Z') || ('a' <= c && c <= 'z') || ('0' <= c && c <= '9') || c == '-' || c
        == '_'
}

/// The first part of every issued token: the URL-safe base64 (unpadded) of the header
/// `{"typ":"JWT","alg":"ed25519-nkey"}`.
pub open spec fn jwt_header() -> Seq<char> {
    "eyJ0eXAiOiJKV1QiLCJhbGciOiJlZDI1NTE5LW5rZXkifQ"@
}

/// A signed user JWT: the fixed header, a `.`, a non-empty URL-safe base64 body (the
/// claims), a `.`, and the 86 URL-safe base64 characters of a 64-byte ed25519 signature.
pub open spec fn is_signed_user_jwt(s: Seq<char>) -> bool {
    let h = jwt_header().len() as int;
    &&& s.len() >= h + 1 + 1 + 1 + 86
    &&& s.subrange(0, h) == jwt_header()
    &&& s[h] == '.'
    &&& s[s.len() - 87] == '.'
    &&& forall|i: int| h < i < s.len() - 87 ==> is_base64url_char(#[trigger] s[i])
    &&& forall|i: int| s.len() - 86 <= i < s.len() ==> is_base64url_char(#[trigger] s[i])
}

/// `nats_jwt::Token::sign`: the signed JWT. It panics when the key holds no seed, which
/// `SigningKey` rules out, or when the system clock reads before the Unix epoch, which is
/// not stated. The claim, as the crate's source builds the token: the URL-safe base64
/// (unpadded) of its constant header, a `.`, that of the claims JSON (never empty), a
/// `.`, and that of the 64-byte signature (86 characters); the claims carry the signing
/// key's public key as issuer and what the token held (its name must be set, so that the
/// name carried is the one held). The claims also carry the issue time, read from the
/// clock, and an identifier hashed from them, so the exact text is not claimed.
#[verifier::external_body]
fn token_sign(t: UserToken, key: &SigningKey) -> (r: String)
    requires
        token_claims(t).name is Some,
    ensures
        is_signed_user_jwt(r@),
        signed_claims(r@) == (JwtClaims { issuer: key.issuer(), claims: token_claims(t) }),
{
    t.token.sign(key.key)
}

/// Seconds a token stays valid: four hours.
pub const TOKEN_LIFETIME_SECS: i64 = 14400;

/// The expiry of a token issued at Unix time `now_secs`: four hours later, or the
/// latest representable time.
pub open spec fn expiry_after(now_secs: i64) -> i64 {
    if now_secs <= i64::MAX - TOKEN_LIFETIME_SECS {
        (now_secs + TOKEN_LIFETIME_SECS) as i64
    } else {
        i64::MAX
    }
}

/// The expiry of a token issued at Unix time `now_secs`.
pub fn token_expiry(now_secs: i64) -> (r: i64)
    ensures
        r == expiry_after(now_secs),
{
    if now_secs <= i64::MAX - TOKEN_LIFETIME_SECS {
        now_secs + TOKEN_LIFETIME_SECS
    } else {
        i64::MAX
    }
}

/// A token issued at a reading of the UTC clock in whole seconds expires exactly four
/// hours (14 400 s) after that reading: no clock reading is late enough for the expiry
/// to be cut short, and the expiry keeps the order of the readings.
pub proof fn lemma_token_expires_four_hours_after_issue(now_secs: i64, later_secs: i64)
    requires
        is_calendar_seconds(now_secs),
        is_calendar_seconds(later_secs),
    ensures
        expiry_after(now_secs) - now_secs == 14_400,
        now_secs <= later_secs ==> expiry_after(now_secs) <= expiry_after(later_secs),
        expiry_after(later_secs) - expiry_after(now_secs) == later_secs - now_secs,
{
}

/// The user token for `user_pub_key` issued by account `issuer`: named after the user,
/// unlimited, a bearer token expiring at `expires`, with the grants of
/// `permission_grants(permissions)`.
pub fn build_user_token(
    issuer: String,
    user_pub_key: &str,
    expires: i64,
    permissions: &NatsPermissions,
) -> (r: UserToken)
    ensures
        token_claims(r) == user_token_claims(
            issuer@,
            user_pub_key@,
            expires,
            string_views(permissions.publish@),
            string_views(permissions.subscribe@),
        ),
{
    let mut token = token_new_user(issuer, user_pub_key);
    token = token_name(token, user_pub_key);
    token = token_max_data(token, -1);
    token = token_max_payload(token, -1);
    token = token_max_subscriptions(token, -1);
    token = token_bearer(token, true);
    token = token_expires(token, expires);
    let (publish, subscribe) = permission_grants(permissions);
    let ghost base = token_claims(token);
    assert(string_views(publish@).take(0) =~= base.publish);
    let mut i: usize = 0;
    while i < publish.len()
        invariant
            i <= publish@.len(),
            token_claims(token) == (TokenClaims {
                publish: string_views(publish@).take(i as int),
                ..base
            }),
        decreases publish@.len() - i,
    {
        token = token_allow_publish(token, publish[i].as_str());
        assert(string_views(publish@).take(i + 1) =~= string_views(publish@).take(i as int).push(
            publish@[i as int]@,
        ));
        i = i + 1;
    }
    assert(string_views(publish@).take(publish@.len() as int) =~= string_views(publish@));
    let ghost mid = token_claims(token);
    assert(string_views(subscribe@).take(0) =~= mid.subscribe);
    let mut j: usize = 0;
    while j < subscribe.len()
        invariant
            j <= subscribe@.len(),
            token_claims(token) == (TokenClaims {
                subscribe: string_views(subscribe@).take(j as int),
                ..mid
            }),
        decreases subscribe@.len() - j,
    {
        token = token_allow_subscribe(token, subscribe[j].as_str());
        assert(string_views(subscribe@).take(j + 1) =~= string_views(subscribe@).take(
            j as int,
        ).push(subscribe@[j as int]@));
        j = j + 1;
    }
    assert(string_views(subscribe@).take(subscribe@.len() as int) =~= string_views(subscribe@));
    token
}

/// A NATS user JWT for user `user_pub_key` issued at Unix time `now_secs`: signed by
/// `signing_key`, with the claims of `build_user_token` for the signing key's account,
/// expiring four hours after `now_secs`.
pub fn user_jwt_at(
    signing_key: &SigningKey,
    user_pub_key: &str,
    permissions: &NatsPermissions,
    now_secs: i64,
) -> (r: String)
    ensures
        is_signed_user_jwt(r@),
        signed_claims(r@) == issued_jwt_claims(
            signing_key.issuer(),
            user_pub_key@,
            expiry_after(now_secs),
            *permissions,
        ),
{
    let expires = token_expiry(now_secs);
    let token = build_user_token(signing_key.public_key(), user_pub_key, expires, permissions);
    token_sign(token, signing_key)
}

/// A NATS user JWT for user `user_pub_key`, as `user_jwt_at` at the current Unix time
/// read from the UTC clock in whole seconds:
/// signed by the account's signing key, unlimited in data, payload and subscriptions, a
/// bearer token expiring four hours from now, with the grants of
/// `permission_grants(permissions)`.
pub fn generate_nats_jwt(
    signing_key: &SigningKey,
    user_pub_key: &str,
    permissions: &NatsPermissions,
) -> (r: String)
    ensures
        is_signed_user_jwt(r@),
        exists|now_secs: i64|
            is_calendar_seconds(now_secs) && signed_claims(r@) == #[trigger] issued_jwt_claims(
                signing_key.issuer(),
                user_pub_key@,
                expiry_after(now_secs),
                *permissions,
            ),
{
    let now = unix_now_secs();
    let r = user_jwt_at(signing_key, user_pub_key, permissions, now);
    assert(signed_claims(r@) == issued_jwt_claims(
        signing_key.issuer(),
        user_pub_key@,
        expiry_after(now),
        *permissions,
    ));
    r
}

// ---------------------------------------------------------------------------
// PIN authentication
// ---------------------------------------------------------------------------

/// A well-formed PIN: four or six ASCII digits.
pub open spec fn pin_format_ok(pin: Seq<char>) -> bool {
    &&& (pin.len() == 4 || pin.len() == 6)
    &&& forall|i: int| 0 <= i < pin.len() ==> '0' <= #[trigger] pin[i] <= '9'
}

/// Whether the configuration accepts `pin`.
pub open spec fn config_has_pin(config: AuthConfig, pin: Seq<char>) -> bool {
    exists|i: int| 0 <= i < config.pins@.len() && #[trigger] config.pins@[i].pin@ == pin
}

/// Whether entry `i` is the first configuration entry for `pin`.
pub open spec fn is_first_pin_entry(config: AuthConfig, pin: Seq<char>, i: int) -> bool {
    &&& 0 <= i < config.pins@.len()
    &&& config.pins@[i].pin@ == pin
    &&& forall|k: int| 0 <= k < i ==> #[trigger] config.pins@[k].pin@ != pin
}

/// Whether `pin` is four or six ASCII digits.
pub fn pin_is_well_formed(pin: &str) -> (r: bool)
    ensures
        r == pin_format_ok(pin@),
{
    let n = pin.unicode_len();
    let mut i: usize = 0;
    while i < n
        invariant
            n == pin@.len(),
            i <= n,
            forall|k: int| 0 <= k < i ==> '0' <= #[trigger] pin@[k] <= '9',
        decreases n - i,
    {
        let c = pin.get_char(i);
        if !('0' <= c && c <= '9') {
            return false;
        }
        i = i + 1;
    }
    n == 4 || n == 6
}

/// The first configuration entry for `pin`.
fn find_pin<'a>(config: &'a AuthConfig, pin: &str) -> (r: Option<&'a PinConfig>)
    ensures
        r is Some <==> config_has_pin(*config, pin@),
        (r matches Some(p) ==> exists|i: int|
            is_first_pin_entry(*config, pin@, i) && *p == #[trigger] config.pins@[i]),
{
    let mut i: usize = 0;
    while i < config.pins.len()
        invariant
            i <= config.pins@.len(),
            forall|k: int| 0 <= k < i ==> #[trigger] config.pins@[k].pin@ != pin@,
        decreases config.pins@.len() - i,
    {
        if str_equal(config.pins[i].pin.as_str(), pin) {
            assert(config.pins@[i as int].pin@ == pin@);
            assert(is_first_pin_entry(*config, pin@, i as int));
            return Some(&config.pins[i]);
        }
        i = i + 1;
    }
    None
}

/// Authenticates a PIN at Unix time `now_secs`: `None` for a PIN that is not four or six
/// ASCII digits or that the configuration does not hold; otherwise the token of
/// `user_jwt_at` for `user_public_key` with the permissions of the PIN's first entry.
pub fn authenticate_pin_at(
    pin: &str,
    config: &AuthConfig,
    signing_key: &SigningKey,
    user_public_key: &str,
    now_secs: i64,
) -> (r: Option<String>)
    ensures
        r is Some <==> pin_format_ok(pin@) && config_has_pin(*config, pin@),
        (r matches Some(token) ==> {
            &&& is_signed_user_jwt(token@)
            &&& exists|i: int|
                is_first_pin_entry(*config, pin@, i) && signed_claims(token@) == #[trigger] issued_jwt_claims(
                    signing_key.issuer(),
                    user_public_key@,
                    expiry_after(now_secs),
                    config.pins@[i].permissions,
                )
        }),
{
    if !pin_is_well_formed(pin) {
        return None;
    }
    match find_pin(config, pin) {
        Some(entry) => {
            let jwt = user_jwt_at(signing_key, user_public_key, &entry.permissions, now_secs);
            proof {
                let i = choose|i: int|
                    is_first_pin_entry(*config, pin@, i) && *entry == #[trigger] config.pins@[i];
                assert(signed_claims(jwt@) == issued_jwt_claims(
                    signing_key.issuer(),
                    user_public_key@,
                    expiry_after(now_secs),
                    config.pins@[i].permissions,
                ));
            }
            Some(jwt)
        },
        None => None,
    }
}

/// Authenticates a PIN, as `authenticate_pin_at` at the current Unix time read from the
/// UTC clock in whole seconds: an issued token expires four hours after that reading.
pub fn authenticate_pin(
    pin: &str,
    config: &AuthConfig,
    signing_key: &SigningKey,
    user_public_key: &str,
) -> (r: Option<String>)
    ensures
        r is Some <==> pin_format_ok(pin@) && config_has_pin(*config, pin@),
        (r matches Some(token) ==> {
            &&& is_signed_user_jwt(token@)
            &&& exists|i: int, now_secs: i64|
                is_first_pin_entry(*config, pin@, i) && is_calendar_seconds(now_secs) && signed_claims(
                    token@,
                ) == #[trigger] issued_jwt_claims(
                    signing_key.issuer(),
                    user_public_key@,
                    expiry_after(now_secs),
                    config.pins@[i].permissions,
                )
        }),
{
    let now = unix_now_secs();
    let r = authenticate_pin_at(pin, config, signing_key, user_public_key, now);
    proof {
        if r is Some {
            let token = r->0;
            let i = choose|i: int|
                is_first_pin_entry(*config, pin@, i) && signed_claims(token@) == #[trigger] issued_jwt_claims(
                    signing_key.issuer(),
                    user_public_key@,
                    expiry_after(now),
                    config.pins@[i].permissions,
                );
            assert(is_first_pin_entry(*config, pin@, i) && signed_claims(token@) == issued_jwt_claims(
                signing_key.issuer(),
                user_public_key@,
                expiry_after(now),
                config.pins@[i].permissions,
            ));
        }
    }
    r
}

/// The answer of the authentication service to the outcome of `authenticate_pin`: the
/// token, or `INVALID_PIN` for an unknown or malformed PIN.
pub fn auth_reply(outcome: Option<String>) -> (r: AuthResponse)
    ensures
        (outcome matches Some(jwt) ==> (r matches AuthResponse::Jwt { jwt: j } && j@ == jwt@)),
        (outcome is None ==> (r matches AuthResponse::Error { error: e, code: c } && e@
            == "Invalid PIN code"@ && c@ == "INVALID_PIN"@)),
{
    match outcome {
        Some(jwt) => AuthResponse::jwt(jwt),
        None => AuthResponse::error(owned("Invalid PIN code"), owned("INVALID_PIN")),
    }
}

/// The answer to a request whose payload is not text: `INVALID_FORMAT`, with the
/// decoding error's description after `Invalid PIN format: `.
pub fn invalid_format_reply(detail: &str) -> (r: AuthResponse)
    ensures
        (r matches AuthResponse::Error { error: e, code: c } && e@ == "Invalid PIN format: "@
            + detail@ && c@ == "INVALID_FORMAT"@),
{
    let mut msg = owned("Invalid PIN format: ");
    msg.append(detail);
    AuthResponse::error(msg, owned("INVALID_FORMAT"))
}

} // verus!
