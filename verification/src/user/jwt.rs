//! JSON Web Tokens: the claims a token carries, RS256 signing, and reading
//! the claims back from a token whose signature verifies.
use vstd::prelude::*;

use jsonwebtoken::{decode, encode, Algorithm, DecodingKey, EncodingKey, Header, Validation};
use serde_json::value::RawValue;

use crate::clock::unix_seconds;
use crate::text::{
    all_digits, chars_between, decimal, digits_u64, digits_value, find_char, is_digit,
    lemma_decimal_digits, lemma_parse_signed_decimal, owned, parse_i64, parse_i64_spec,
    parse_u64_digits, push_decimal, push_signed_decimal, push_str, signed_decimal, str_eq,
    to_chars,
};

verus! {

broadcast use vstd::string::group_string_axioms;

#[verifier::external_type_specification]
#[verifier::external_body]
pub struct ExEncodingKey(EncodingKey);

#[verifier::external_type_specification]
#[verifier::external_body]
pub struct ExDecodingKey(DecodingKey);

#[verifier::external_type_specification]
#[verifier::external_body]
pub struct ExJwtError(jsonwebtoken::errors::Error);

/// Whether `pem` holds an RSA private key that `EncodingKey::from_rsa_pem`
/// accepts.
pub uninterp spec fn rsa_pem_accepted(pem: Seq<u8>) -> bool;

/// The RS256 token that `jsonwebtoken::encode` makes from the claims JSON
/// `claims` with the RSA key in `pem`, or `None` where it fails.
/// (RSASSA-PKCS1-v1_5 signatures are deterministic.)
pub uninterp spec fn jwt_rs256(pem: Seq<u8>, claims: Seq<char>) -> Option<Seq<char>>;

/// An RSA signing key and the PEM text it was read from. Only
/// `SigningKey::from_rsa_pem` builds one, so `key` is always the key in
/// `pem`.
pub struct SigningKey {
    pem: Vec<u8>,
    key: EncodingKey,
}

impl SigningKey {
    /// The PEM text of the key.
    pub closed spec fn pem_spec(&self) -> Seq<u8> {
        self.pem@
    }

    /// Reads an RSA private key from PEM text; `None` when it holds none.
    pub fn from_rsa_pem(pem: &[u8]) -> (r: Option<SigningKey>)
        ensures
            r is Some <==> rsa_pem_accepted(pem@),
            r matches Some(k) ==> k.pem_spec() == pem@,
    {
        match encoding_key_from_rsa_pem(pem) {
            Ok(k) => Some(k),
            Err(_) => None,
        }
    }
}

/// Whether `pem` holds an RSA public key that `DecodingKey::from_rsa_pem`
/// accepts.
pub uninterp spec fn rsa_public_pem_accepted(pem: Seq<u8>) -> bool;

/// Whether the header of `token` names RS256 and its RS256 signature over
/// the text before its last dot verifies with the RSA public key in `pem`.
pub uninterp spec fn jwt_verifies(pem: Seq<u8>, token: Seq<char>) -> bool;

/// An RSA public key that checks token signatures, and the PEM text it was
/// read from. Only `VerifyingKey::from_rsa_pem` builds one, so `key` is
/// always the key in `pem`.
pub struct VerifyingKey {
    pem: Vec<u8>,
    key: DecodingKey,
}

impl VerifyingKey {
    /// The PEM text of the key.
    pub closed spec fn pem_spec(&self) -> Seq<u8> {
        self.pem@
    }

    /// Reads an RSA public key from PEM text; `None` when it holds none.
    pub fn from_rsa_pem(pem: &[u8]) -> (r: Option<VerifyingKey>)
        ensures
            r is Some <==> rsa_public_pem_accepted(pem@),
            r matches Some(k) ==> k.pem_spec() == pem@,
    {
        match decoding_key_from_rsa_pem(pem) {
            Ok(k) => Some(k),
            Err(_) => None,
        }
    }
}

/// `DecodingKey::from_rsa_pem`. Its success is named
/// `rsa_public_pem_accepted`; on success the PEM text is kept beside the
/// key.
#[verifier::external_body]
fn decoding_key_from_rsa_pem(pem: &[u8]) -> (r: Result<VerifyingKey, jsonwebtoken::errors::Error>)
    ensures
        r is Ok <==> rsa_public_pem_accepted(pem@),
        r matches Ok(k) ==> k.pem_spec() == pem@,
{
    match DecodingKey::from_rsa_pem(pem) {
        Ok(key) => Ok(VerifyingKey { pem: pem.to_vec(), key }),
        Err(e) => Err(e),
    }
}

/// `jsonwebtoken::decode` with `Validation::new(Algorithm::RS256)` with the
/// check of `exp` against the system clock turned off (the caller checks
/// expiry against its own `now`), the claims read as a raw JSON value,
/// whose text is returned. When it succeeds, the token's signature verifies
/// with the key and the text is the token's payload. As the source shows,
/// it succeeds on a token whose signature verifies and whose payload is the
/// JSON of a set of claims: the key is an RSA key, the header names RS256,
/// the payload is JSON, and its `exp` is an unsigned number, the one claim
/// required.
#[verifier::external_body]
pub(crate) fn jwt_decode_rs256(token: &str, key: &VerifyingKey) -> (r: Option<String>)
    ensures
        r matches Some(p) ==> jwt_verifies(key.pem_spec(), token@) && jwt_payload(token@) == Some(
            p@,
        ),
        jwt_verifies(key.pem_spec(), token@) && jwt_payload(token@) is Some && claims_in(
            jwt_payload(token@)->0,
        ) is Some ==> r is Some,
{
    let mut validation = Validation::new(Algorithm::RS256);
    validation.validate_exp = false;
    match decode::<Box<RawValue>>(token, &key.key, &validation) {
        Ok(data) => Some(data.claims.get().to_string()),
        Err(_) => None,
    }
}

/// `EncodingKey::from_rsa_pem`. Its success is named `rsa_pem_accepted`;
/// on success the PEM text is kept beside the key.
#[verifier::external_body]
fn encoding_key_from_rsa_pem(pem: &[u8]) -> (r: Result<SigningKey, jsonwebtoken::errors::Error>)
    ensures
        r is Ok <==> rsa_pem_accepted(pem@),
        r matches Ok(k) ==> k.pem_spec() == pem@,
{
    match EncodingKey::from_rsa_pem(pem) {
        Ok(key) => Ok(SigningKey { pem: pem.to_vec(), key }),
        Err(e) => Err(e),
    }
}

/// Whether `c` is whitespace between JSON tokens.
pub open spec fn is_json_space(c: char) -> bool {
    c == ' ' || c == '\t' || c == '\n' || c == '\r'
}

/// The JSON text a token carries as its claims: the segment between its
/// last two dots, base64url-decoded (without padding), read as UTF-8 and as
/// one JSON value, without the whitespace around it; `None` where any of
/// this fails.
pub uninterp spec fn jwt_payload(token: Seq<char>) -> Option<Seq<char>>;

/// `jsonwebtoken::encode` with the header `Header::new(Algorithm::RS256)`
/// and the claims given as JSON text (passed through as a raw JSON value).
/// The outcome is named `jwt_rs256`. As the source shows, the payload of
/// the token is the base64url of the claims text, written verbatim, so a
/// claims text without whitespace around it is the token's `jwt_payload`.
#[verifier::external_body]
fn jwt_encode_rs256(claims: &str, key: &SigningKey) -> (r: Result<String, jsonwebtoken::errors::Error>)
    ensures
        jwt_rs256(key.pem_spec(), claims@) == match r {
            Ok(t) => Some(t@),
            Err(_) => None::<Seq<char>>,
        },
        r matches Ok(t) ==> (claims@.len() > 0 && !is_json_space(claims@[0]) && !is_json_space(
            claims@.last(),
        ) ==> jwt_payload(t@) == Some(claims@)),
{
    let raw = match RawValue::from_string(claims.to_string()) {
        Ok(raw) => raw,
        Err(e) => return Err(e.into()),
    };
    encode(&Header::new(Algorithm::RS256), &raw, &key.key)
}

/// The `Display` text of a `jsonwebtoken` error. Nothing is stated of it.
#[verifier::external_body]
fn jwt_error_text(e: &jsonwebtoken::errors::Error) -> (r: String) {
    e.to_string()
}

/// Why a token could not be made: the signer's description.
pub struct TokenError {
    pub text: String,
}

/// What a token claims: whose it is, and until and since when it holds
/// (Unix seconds).
pub struct Claims {
    pub sub: i32,
    pub exp: usize,
    pub iat: usize,
}

/// The JSON of the claims `sub`, `exp`, `iat`, in that order.
pub open spec fn claims_json(sub: i32, exp: usize, iat: usize) -> Seq<char> {
    "{\"sub\":"@ + signed_decimal(sub as int) + ",\"exp\":"@ + decimal(exp as nat) + ",\"iat\":"@
        + decimal(iat as nat) + "}"@
}

impl Claims {
    /// The claims as JSON: `{"sub":…,"exp":…,"iat":…}`.
    pub fn to_json(&self) -> (r: String)
        ensures
            r@ == claims_json(self.sub, self.exp, self.iat),
    {
        let mut s = owned("{\"sub\":");
        push_signed_decimal(&mut s, self.sub as i64);
        push_str(&mut s, ",\"exp\":");
        push_decimal(&mut s, self.exp as u64);
        push_str(&mut s, ",\"iat\":");
        push_decimal(&mut s, self.iat as u64);
        push_str(&mut s, "}");
        s
    }
}

/// A signed decimal numeral is not empty and holds no comma: a digit, or a
/// `-` in front.
proof fn lemma_numeral_has_no_comma(n: int)
    ensures
        signed_decimal(n).len() > 0,
        forall|m: int| 0 <= m < signed_decimal(n).len() ==> #[trigger] signed_decimal(n)[m] != ',',
{
    if n < 0 {
        let d = decimal((-n) as nat);
        lemma_decimal_digits((-n) as nat);
        assert forall|m: int| 0 <= m < signed_decimal(n).len() implies #[trigger] signed_decimal(
            n,
        )[m] != ',' by {
            if m > 0 {
                assert(signed_decimal(n)[m] == d[m - 1]);
                assert(is_digit(d[m - 1]));
            }
        }
    } else {
        let d = decimal(n as nat);
        lemma_decimal_digits(n as nat);
        assert forall|m: int| 0 <= m < signed_decimal(n).len() implies #[trigger] signed_decimal(
            n,
        )[m] != ',' by {
            assert(is_digit(d[m]));
        }
    }
}

/// Where the three numbers stand in the JSON of a set of claims: the
/// subject from index 7 up to the first comma, the expiry 7 characters
/// later up to the next comma, and the issue time 7 characters later up to
/// the closing brace, the last character.
proof fn lemma_claims_layout(sub: i32, exp: usize, iat: usize)
    ensures
        ({
            let j = claims_json(sub, exp, iat);
            let a = signed_decimal(sub as int);
            let b = decimal(exp as nat);
            let c = decimal(iat as nat);
            let k1: int = 7 + a.len() as int;
            let k2: int = k1 + 7 + b.len() as int;
            &&& a.len() > 0 && b.len() > 0 && c.len() > 0
            &&& j.len() == k2 + 7 + c.len() + 1
            &&& j.subrange(7, k1 as int) == a
            &&& j[k1 as int] == ','
            &&& (forall|m: int| 7 <= m < k1 ==> #[trigger] j[m] != ',')
            &&& j.subrange(k1 + 7, k2 as int) == b
            &&& j[k2 as int] == ','
            &&& (forall|m: int| k1 + 7 <= m < k2 ==> #[trigger] j[m] != ',')
            &&& j.subrange(k2 + 7, j.len() - 1) == c
        }),
{
    reveal_strlit("{\"sub\":");
    reveal_strlit(",\"exp\":");
    reveal_strlit(",\"iat\":");
    reveal_strlit("}");
    let j = claims_json(sub, exp, iat);
    let a = signed_decimal(sub as int);
    let b = decimal(exp as nat);
    let c = decimal(iat as nat);
    lemma_numeral_has_no_comma(sub as int);
    lemma_numeral_has_no_comma(exp as int);
    lemma_decimal_digits(exp as nat);
    lemma_decimal_digits(iat as nat);
    let k1: int = 7 + a.len() as int;
    let k2: int = k1 + 7 + b.len() as int;
    let p = "{\"sub\":"@;
    let e = ",\"exp\":"@;
    let t = ",\"iat\":"@;
    let z = "}"@;
    assert(j == p + (a + (e + (b + (t + (c + z))))));
    assert(j.subrange(7, k1 as int) =~= a);
    assert(j.subrange(k1 + 7, k2 as int) =~= b);
    assert(j.subrange(k2 + 7, j.len() - 1) =~= c);
    assert forall|m: int| 7 <= m < k1 implies #[trigger] j[m] != ',' by {
        assert(j[m] == a[m - 7]);
    }
    assert forall|m: int| k1 + 7 <= m < k2 implies #[trigger] j[m] != ',' by {
        assert(j[m] == b[m - k1 - 7]);
        assert(signed_decimal(exp as int) == b);
    }
}

/// Two sets of claims with the same JSON are the same claims.
pub proof fn lemma_claims_json_injective(x: Claims, y: Claims)
    requires
        claims_json(x.sub, x.exp, x.iat) == claims_json(y.sub, y.exp, y.iat),
    ensures
        x == y,
{
    let j = claims_json(x.sub, x.exp, x.iat);
    lemma_claims_layout(x.sub, x.exp, x.iat);
    lemma_claims_layout(y.sub, y.exp, y.iat);
    let ax = signed_decimal(x.sub as int);
    let ay = signed_decimal(y.sub as int);
    let ex = decimal(x.exp as nat);
    let ey = decimal(y.exp as nat);
    assert(ax.len() == ay.len()) by {
        if ax.len() < ay.len() {
            assert(j[7 + ax.len() as int] != ',');
        } else if ax.len() > ay.len() {
            assert(j[7 + ay.len() as int] != ',');
        }
    }
    let k1: int = 7 + ax.len() as int;
    assert(ex.len() == ey.len()) by {
        if ex.len() < ey.len() {
            assert(j[k1 + 7 + ex.len() as int] != ',');
        } else if ex.len() > ey.len() {
            assert(j[k1 + 7 + ey.len() as int] != ',');
        }
    }
    lemma_parse_signed_decimal(x.sub as i64);
    lemma_parse_signed_decimal(y.sub as i64);
    lemma_decimal_digits(x.exp as nat);
    lemma_decimal_digits(y.exp as nat);
    lemma_decimal_digits(x.iat as nat);
    lemma_decimal_digits(y.iat as nat);
}

/// The claims whose JSON is `json`, if any.
pub open spec fn claims_in(json: Seq<char>) -> Option<Claims> {
    if exists|c: Claims| claims_json(c.sub, c.exp, c.iat) == json {
        Some(choose|c: Claims| claims_json(c.sub, c.exp, c.iat) == json)
    } else {
        None
    }
}

/// Reading back the JSON of a set of claims gives those claims.
pub proof fn lemma_claims_in_json(c: Claims)
    ensures
        claims_in(claims_json(c.sub, c.exp, c.iat)) == Some(c),
{
    let j = claims_json(c.sub, c.exp, c.iat);
    assert(exists|d: Claims| claims_json(d.sub, d.exp, d.iat) == j);
    let d = choose|d: Claims| claims_json(d.sub, d.exp, d.iat) == j;
    lemma_claims_json_injective(c, d);
}

impl Claims {
    /// Reads claims back from their JSON, `{"sub":…,"exp":…,"iat":…}` as
    /// `to_json` writes it; `None` for any other text.
    pub fn from_json(json: &str) -> (r: Option<Claims>)
        ensures
            r == claims_in(json@),
    {
        let cs = to_chars(json);
        let n = cs.len();
        let ghost found = exists|c: Claims| claims_json(c.sub, c.exp, c.iat) == json@;
        let ghost c0 = choose|c: Claims| claims_json(c.sub, c.exp, c.iat) == json@;
        proof {
            if found {
                lemma_claims_layout(c0.sub, c0.exp, c0.iat);
                lemma_parse_signed_decimal(c0.sub as i64);
                lemma_decimal_digits(c0.exp as nat);
                lemma_decimal_digits(c0.iat as nat);
            }
        }
        if n < 8 {
            return None;
        }
        let k1 = find_char(&cs, 7, ',');
        proof {
            if found {
                let a = signed_decimal(c0.sub as int);
                if k1 < 7 + a.len() {
                    assert(cs@[k1 as int] != ',');
                }
                if k1 > 7 + a.len() {
                    assert(cs@[7 + a.len() as int] == ',');
                }
                assert(k1 == 7 + a.len());
            }
        }
        let sub_text = chars_between(&cs, 7, k1);
        let sub = match parse_i64(sub_text.as_str()) {
            Some(v) => v,
            None => {
                return None;
            },
        };
        if sub < -2147483648i64 || sub > 2147483647i64 {
            return None;
        }
        if n - k1 < 7 {
            return None;
        }
        let a2 = k1 + 7;
        let k2 = find_char(&cs, a2, ',');
        proof {
            if found {
                let b = decimal(c0.exp as nat);
                if k2 < a2 + b.len() {
                    assert(cs@[k2 as int] != ',');
                }
                if k2 > a2 + b.len() {
                    assert(cs@[a2 + b.len() as int] == ',');
                }
                assert(k2 == a2 + b.len());
                assert(digits_u64(b) == Some(c0.exp as u64));
            }
        }
        let exp = match parse_u64_digits(&cs, a2, k2) {
            Some(v) => v,
            None => {
                return None;
            },
        };
        if n - k2 < 8 {
            return None;
        }
        let a3 = k2 + 7;
        proof {
            if found {
                assert(digits_u64(decimal(c0.iat as nat)) == Some(c0.iat as u64));
            }
        }
        let iat = match parse_u64_digits(&cs, a3, n - 1) {
            Some(v) => v,
            None => {
                return None;
            },
        };
        if exp > usize::MAX as u64 || iat > usize::MAX as u64 {
            return None;
        }
        let c = Claims { sub: sub as i32, exp: exp as usize, iat: iat as usize };
        proof {
            if found {
                assert(c == c0);
            }
        }
        let back = c.to_json();
        if str_eq(back.as_str(), json) {
            proof {
                lemma_claims_in_json(c);
            }
            Some(c)
        } else {
            None
        }
    }
}

/// The Unix second of the instant `t` (microseconds), as a `usize` the way
/// `timestamp() as usize` makes it (a negative second wraps around).
pub open spec fn claim_seconds(t: i64) -> usize {
    (t / 1_000_000) as usize
}

/// The claims of a token for `user_id`, issued at `issued_at` and expiring
/// at `expires_at`.
pub open spec fn token_claims_json(user_id: i32, expires_at: i64, issued_at: i64) -> Seq<char> {
    claims_json(user_id, claim_seconds(expires_at), claim_seconds(issued_at))
}

/// Signs an RS256 token for `user_id`, issued at `issued_at` and expiring
/// at `expires_at` (microseconds since the epoch).
pub fn generate_token(user_id: i32, expires_at: i64, issued_at: i64, key: &SigningKey) -> (r: Result<
    String,
    TokenError,
>)
    ensures
        r is Ok <==> jwt_rs256(key.pem_spec(), token_claims_json(user_id, expires_at, issued_at)) is Some,
        r matches Ok(t) ==> jwt_rs256(key.pem_spec(), token_claims_json(user_id, expires_at, issued_at))
            == Some(t@),
        r matches Ok(t) ==> jwt_payload(t@) == Some(token_claims_json(user_id, expires_at, issued_at)),
{
    let claims = Claims {
        sub: user_id,
        exp: unix_seconds(expires_at) as usize,
        iat: unix_seconds(issued_at) as usize,
    };
    let json = claims.to_json();
    proof {
        reveal_strlit("{\"sub\":");
        reveal_strlit("}");
        lemma_claims_layout(claims.sub, claims.exp, claims.iat);
        assert(json@[0] == '{');
        assert(json@.last() == '}');
    }
    match jwt_encode_rs256(json.as_str(), key) {
        Ok(t) => Ok(t),
        Err(e) => Err(TokenError { text: jwt_error_text(&e) }),
    }
}

} // verus!
