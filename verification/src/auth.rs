use vstd::prelude::*;

use crate::text::{opt_text, str_equal};

verus! {

/// The user behind a web request.
#[derive(Debug, Clone)]
pub struct AuthUser {
    /// The subject of the verified ID token; the owner of the user's records.
    pub user_id: String,
}

/// An authentication failure: HTTP status and message.
#[derive(Debug, Clone, Copy)]
pub struct AuthError(pub u16, pub &'static str);

/// Whether `e` is the `401 Unauthorized` answer.
pub open spec fn is_unauthorized(e: AuthError) -> bool {
    e.0 == 401 && e.1@ == "Unauthorized"@
}

fn unauthorized() -> (e: AuthError)
    ensures
        is_unauthorized(e),
{
    AuthError(401, "Unauthorized")
}

/// The scheme prefix of a bearer credential.
pub open spec fn bearer_prefix() -> Seq<char> {
    "Bearer "@
}

/// The token of an `Authorization` value: what follows `Bearer `.
pub open spec fn bearer_token(header: Seq<char>) -> Option<Seq<char>> {
    if header.len() >= 7 && header.take(7) == bearer_prefix() {
        Some(header.skip(7))
    } else {
        None
    }
}

/// A token sent as `Bearer <token>` is taken out unchanged.
pub proof fn law_bearer_round_trip(token: Seq<char>)
    ensures
        bearer_token(bearer_prefix() + token) == Some(token),
{
    let h = bearer_prefix() + token;
    reveal_strlit("Bearer ");
    assert(h.take(7) =~= bearer_prefix());
    assert(h.skip(7) =~= token);
}

/// Takes the token out of the `Authorization` header value (`None` when
/// the header is missing or not text): the text after `Bearer `; any other
/// value is refused with `401 Unauthorized`.
pub fn extract_bearer(header: Option<&str>) -> (r: Result<String, AuthError>)
    ensures
        match header {
            Some(h) => match bearer_token(h@) {
                Some(t) => r matches Ok(s) && s@ == t,
                None => r matches Err(e) && is_unauthorized(e),
            },
            None => r matches Err(e) && is_unauthorized(e),
        },
{
    match header {
        None => Err(unauthorized()),
        Some(h) => {
            let n = h.unicode_len();
            if n < 7 {
                return Err(unauthorized());
            }
            let head = h.substring_char(0, 7);
            proof {
                reveal_strlit("Bearer ");
            }
            if !str_equal(head, "Bearer ") {
                assert(h@.take(7) =~= head@);
                return Err(unauthorized());
            }
            assert(h@.take(7) =~= head@);
            let rest = h.substring_char(7, n);
            assert(rest@ =~= h@.skip(7));
            Ok(rest.to_owned())
        },
    }
}

/// With `SKIP_AUTH=true` (`flag` is the variable's value) every request is
/// the local user's and no token is looked at.
pub fn skip_auth_user(flag: Option<&str>) -> (r: Option<AuthUser>)
    ensures
        match flag {
            Some(f) => if f@ == "true"@ {
                r matches Some(u) && u.user_id@ == "local"@
            } else {
                r is None
            },
            None => r is None,
        },
{
    match flag {
        Some(f) => {
            if str_equal(f, "true") {
                Some(AuthUser { user_id: "local".to_owned() })
            } else {
                None
            }
        },
        None => None,
    }
}

/// The outcome of token verification: the token's subject is the user;
/// a token that did not verify is `401 Unauthorized`.
pub fn user_from_subject(subject: Option<String>) -> (r: Result<AuthUser, AuthError>)
    ensures
        match subject {
            Some(s) => r matches Ok(u) && u.user_id@ == s@,
            None => r matches Err(e) && is_unauthorized(e),
        },
{
    match subject {
        Some(s) => Ok(AuthUser { user_id: s }),
        None => Err(unauthorized()),
    }
}

/// The `kid` of the header that `jsonwebtoken::decode_header` reads from a
/// token: `None` when the header cannot be decoded, `Some(None)` when it
/// has no `kid`.
pub uninterp spec fn jwt_header_kid(token: Seq<char>) -> Option<Option<Seq<char>>>;

/// The text of an optional optional string.
pub open spec fn opt_opt_text(o: Option<Option<String>>) -> Option<Option<Seq<char>>> {
    match o {
        Some(x) => Some(opt_text(x)),
        None => None,
    }
}

/// Calls `jsonwebtoken::decode_header(token)`, which splits the token at its
/// dots and decodes the base64url JSON header, and hands back the header's
/// `kid` (`None` on any decoding error). What it reads is named
/// `jwt_header_kid(token)`; the JSON and base64 rules are not restated.
#[verifier::external_body]
fn decode_header_kid(token: &str) -> (r: Option<Option<String>>)
    ensures
        opt_opt_text(r) == jwt_header_kid(token@),
{
    jsonwebtoken::decode_header(token).ok().map(|h| h.kid)
}

/// The key id that a token names in its header; `None` when the header
/// cannot be decoded or names no key.
pub fn token_key_id(token: &str) -> (r: Option<String>)
    ensures
        match jwt_header_kid(token@) {
            Some(Some(k)) => r matches Some(s) && s@ == k,
            _ => r is None,
        },
{
    key_id_of(decode_header_kid(token))
}

/// The key id to look up for a token whose header read as `kid` (as
/// `jwt_header_kid` names it): present only when the header names one.
pub fn key_id_of(kid: Option<Option<String>>) -> (r: Option<String>)
    ensures
        match opt_opt_text(kid) {
            Some(Some(k)) => r matches Some(s) && s@ == k,
            _ => r is None,
        },
{
    match kid {
        Some(Some(k)) => Some(k),
        _ => None,
    }
}

/// A public key of the token issuer's key set (RSA modulus and exponent,
/// base64url).
#[derive(Debug)]
pub struct JwkKey {
    pub kid: String,
    pub n: String,
    pub e: String,
}

/// The position of the first key named `kid`.
pub open spec fn first_key_with(keys: Seq<JwkKey>, kid: Seq<char>) -> Option<int>
    decreases keys.len(),
{
    if keys.len() == 0 {
        None
    } else if keys[0].kid@ == kid {
        Some(0)
    } else {
        match first_key_with(keys.drop_first(), kid) {
            Some(i) => Some(i + 1),
            None => None,
        }
    }
}

proof fn lemma_first_key_step(keys: Seq<JwkKey>, kid: Seq<char>, i: int)
    requires
        0 <= i < keys.len(),
        forall|j: int| 0 <= j < i ==> (#[trigger] keys[j]).kid@ != kid,
    ensures
        first_key_with(keys, kid) == (match first_key_with(keys.skip(i), kid) {
            Some(k) => Some(k + i),
            None => None,
        }),
    decreases i,
{
    if i > 0 {
        let d = keys.drop_first();
        assert forall|j: int| 0 <= j < i - 1 implies (#[trigger] d[j]).kid@ != kid by {
            assert(d[j] == keys[j + 1]);
        }
        lemma_first_key_step(d, kid, i - 1);
        assert(d.skip(i - 1) =~= keys.skip(i));
    } else {
        assert(keys.skip(0) =~= keys);
    }
}

/// The key that signs a token: the first one whose id is the token's.
pub fn find_signing_key(keys: &[JwkKey], kid: &str) -> (r: Option<usize>)
    ensures
        match r {
            Some(i) => first_key_with(keys@, kid@) == Some(i as int) && i < keys@.len() && keys@[i as int].kid@ == kid@,
            None => first_key_with(keys@, kid@) is None,
        },
{
    let mut i: usize = 0;
    while i < keys.len()
        invariant
            i <= keys@.len(),
            forall|j: int| 0 <= j < i ==> (#[trigger] keys@[j]).kid@ != kid@,
        decreases keys@.len() - i,
    {
        if str_equal(keys[i].kid.as_str(), kid) {
            proof {
                lemma_first_key_step(keys@, kid@, i as int);
                assert(keys@.skip(i as int)[0] == keys@[i as int]);
            }
            return Some(i);
        }
        i = i + 1;
    }
    proof {
        lemma_no_key(keys@, kid@);
    }
    None
}

proof fn lemma_no_key(keys: Seq<JwkKey>, kid: Seq<char>)
    requires
        forall|j: int| 0 <= j < keys.len() ==> (#[trigger] keys[j]).kid@ != kid,
    ensures
        first_key_with(keys, kid) is None,
    decreases keys.len(),
{
    if keys.len() > 0 {
        let d = keys.drop_first();
        assert(keys[0].kid@ != kid);
        assert forall|j: int| 0 <= j < d.len() implies (#[trigger] d[j]).kid@ != kid by {
            assert(d[j] == keys[j + 1]);
        }
        lemma_no_key(d, kid);
    }
}

/// The issuers a Google ID token may name.
pub open spec fn google_issuers() -> Seq<Seq<char>> {
    seq!["accounts.google.com"@, "https://accounts.google.com"@]
}

/// The characters of each string.
pub open spec fn texts(v: Seq<String>) -> Seq<Seq<char>> {
    v.map_values(|s: String| s@)
}

/// How the claims of a signed token are checked: the issuers accepted, the
/// audiences accepted, and whether the audience is checked at all.
#[derive(Debug)]
pub struct ClaimRules {
    pub issuers: Vec<String>,
    pub audience: Vec<String>,
    pub check_audience: bool,
}

/// The rules for Google ID tokens: either Google issuer; the audience must
/// be the client id when one is configured, and is not checked otherwise.
pub fn google_claim_rules(client_id: Option<String>) -> (r: ClaimRules)
    ensures
        texts(r.issuers@) == google_issuers(),
        match client_id {
            Some(c) => texts(r.audience@) == seq![c@] && r.check_audience,
            None => r.audience@.len() == 0 && !r.check_audience,
        },
        texts(r.audience@) == google_audience(client_id),
        r.check_audience == (client_id is Some),
        r.check_audience ==> r.audience@.len() == 1,
        !r.check_audience ==> r.audience@.len() == 0,
{
    let mut issuers: Vec<String> = Vec::new();
    issuers.push("accounts.google.com".to_owned());
    issuers.push("https://accounts.google.com".to_owned());
    assert(texts(issuers@) =~= google_issuers());
    let mut audience: Vec<String> = Vec::new();
    let check_audience = match client_id {
        Some(c) => {
            audience.push(c);
            assert(texts(audience@) =~= seq![audience@[0]@]);
            true
        },
        None => {
            assert(texts(audience@) =~= Seq::<Seq<char>>::empty());
            false
        },
    };
    ClaimRules { issuers, audience, check_audience }
}

/// What `jsonwebtoken::decode` finds in `token` checked as an RS256 token
/// against the RSA key with base64url modulus `n` and exponent `e`, with
/// accepted issuers `issuers` and accepted audiences `audience` (looked at
/// only when `check_audience`), apart from its expiry: the token's `sub`
/// claim when the signature verifies under that key, its `iss` is one of
/// `issuers` and, when checked, its `aud` is one of `audience`; `None`
/// otherwise. It depends on these values alone.
pub uninterp spec fn jwt_verified_subject(
    token: Seq<char>,
    n: Seq<char>,
    e: Seq<char>,
    issuers: Seq<Seq<char>>,
    audience: Seq<Seq<char>>,
    check_audience: bool,
) -> Option<Seq<char>>;

/// Calls `jsonwebtoken::decode` on `token` with the RSA key made by
/// `DecodingKey::from_rsa_components(key.n, key.e)` and an RS256
/// `Validation` given the issuers and audiences of `rules` (its
/// `validate_aud` set to `rules.check_audience`); the claims are read as
/// JSON and their `sub` string is handed back, `None` when any step fails.
/// The contract claims that a subject handed back is the one named by
/// `jwt_verified_subject`: decode returns claims only after the signature,
/// issuer and audience checks pass, and they are the token's own payload.
/// Success is not claimed: it also depends on the clock (expiry).
#[verifier::external_body]
fn decode_rs256_subject(token: &str, key: &JwkKey, rules: &ClaimRules) -> (r: Option<String>)
    requires
        texts(rules.issuers@) == google_issuers(),
        rules.check_audience ==> rules.audience@.len() == 1,
        !rules.check_audience ==> rules.audience@.len() == 0,
    ensures
        r matches Some(s) ==> jwt_verified_subject(
            token@,
            key.n@,
            key.e@,
            texts(rules.issuers@),
            texts(rules.audience@),
            rules.check_audience,
        ) == Some(s@),
{
    let decoding_key = jsonwebtoken::DecodingKey::from_rsa_components(&key.n, &key.e).ok()?;
    let mut validation = jsonwebtoken::Validation::new(jsonwebtoken::Algorithm::RS256);
    validation.set_issuer(&rules.issuers);
    validation.set_audience(&rules.audience);
    validation.validate_aud = rules.check_audience;
    let data = jsonwebtoken::decode::<serde_json::Value>(token, &decoding_key, &validation).ok()?;
    data.claims.get("sub")?.as_str().map(|s| s.to_owned())
}

/// Both Google issuers are accepted: `accounts.google.com` and
/// `https://accounts.google.com`, and nothing else.
pub proof fn law_both_google_issuers_accepted(iss: Seq<char>)
    ensures
        google_issuers().contains(iss) <==> (iss == "accounts.google.com"@ || iss == "https://accounts.google.com"@),
        google_issuers().len() == 2,
{
    let g = google_issuers();
    if iss == "accounts.google.com"@ {
        assert(g[0] == iss);
    }
    if iss == "https://accounts.google.com"@ {
        assert(g[1] == iss);
    }
}

/// The audiences a Google ID token may name: the client id, when one is
/// configured.
pub open spec fn google_audience(client_id: Option<String>) -> Seq<Seq<char>> {
    match client_id {
        Some(c) => seq![c@],
        None => Seq::empty(),
    }
}

/// Verifies a Google ID token against the issuer's key `key` under the
/// rules of `google_claim_rules(client_id)`, and gives its subject; a token
/// that does not verify is answered `401 Unauthorized`. A subject is given
/// only when the token's RS256 signature verifies under `key`, its issuer
/// is Google's and, with a client id, its audience is that id; it is then
/// the token's `sub` claim.
pub fn verify_with_key(token: &str, key: &JwkKey, client_id: Option<String>) -> (r: Result<String, AuthError>)
    ensures
        r matches Ok(s) ==> jwt_verified_subject(
            token@,
            key.n@,
            key.e@,
            google_issuers(),
            google_audience(client_id),
            client_id is Some,
        ) == Some(s@),
        r matches Err(e) ==> is_unauthorized(e),
{
    let rules = google_claim_rules(client_id);
    match decode_rs256_subject(token, key, &rules) {
        Some(sub) => Ok(sub),
        None => Err(unauthorized()),
    }
}

} // verus!
