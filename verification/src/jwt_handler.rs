use crate::error::ServiceError;
use crate::model::AuthUser;
use biscuit::RegisteredClaims;
use chrono::NaiveDateTime;
use biscuit::jwk::RSAKeyParameters;
use biscuit::jws::Secret;
use vstd::prelude::*;

verus! {

#[verifier::external_type_specification]
#[verifier::external_body]
pub struct ExRSAKeyParameters(RSAKeyParameters);

#[verifier::external_type_specification]
#[verifier::external_body]
pub struct ExSecret(Secret);

#[verifier::external_type_specification]
#[verifier::external_body]
pub struct ExRegisteredClaims(RegisteredClaims);

#[verifier::external_type_specification]
#[verifier::external_body]
pub struct ExNaiveDateTime(NaiveDateTime);

/// A JSON web key as the handler reads it: its key id and, when it is an RSA
/// key, its RSA parameters.
pub struct JsonWebKey {
    pub key_id: Option<String>,
    pub rsa: Option<RSAKeyParameters>,
}

/// A set of JSON web keys, in the order in which the key document lists them.
pub struct JsonWebKeySet {
    pub keys: Vec<JsonWebKey>,
}

/// Whether a key carries the key id `kid`.
pub open spec fn key_has_id(k: JsonWebKey, kid: Seq<char>) -> bool {
    k.key_id matches Some(id) && id@ == kid
}

/// `i` is the first key of `keys` that carries the key id `kid`.
pub open spec fn first_key_with_id(keys: Seq<JsonWebKey>, kid: Seq<char>, i: int) -> bool {
    &&& 0 <= i < keys.len()
    &&& key_has_id(keys[i], kid)
    &&& forall|j: int| 0 <= j < i ==> !key_has_id(#[trigger] keys[j], kid)
}

impl JsonWebKeySet {
    /// Whether the first key that carries the key id `kid` exists and is an RSA key.
    pub open spec fn has_rsa_key(&self, kid: Seq<char>) -> bool {
        exists|i: int| first_key_with_id(self.keys@, kid, i) && (#[trigger] self.keys@[i]).rsa is Some
    }

    /// The position of the first key that carries the key id `kid`.
    pub fn find_index(&self, kid: &str) -> (r: Option<usize>)
        ensures
            r matches Some(i) ==> first_key_with_id(self.keys@, kid@, i as int),
            r is None ==> forall|j: int| 0 <= j < self.keys@.len() ==> !key_has_id(#[trigger] self.keys@[j], kid@),
            r matches Some(i) ==> i < self.keys@.len() && self.keys@[i as int].key_id is Some
                && self.keys@[i as int].key_id->0@ == kid@,
            r matches Some(i) ==> forall|j: int|
                0 <= j < i ==> (#[trigger] self.keys@[j]).key_id is None || self.keys@[j].key_id->0@
                    != kid@,
            r is None ==> forall|j: int|
                0 <= j < self.keys@.len() ==> (#[trigger] self.keys@[j]).key_id is None
                    || self.keys@[j].key_id->0@ != kid@,
    {
        let wanted = String::from_str(kid);
        let mut i: usize = 0;
        while i < self.keys.len()
            invariant
                i <= self.keys@.len(),
                wanted@ == kid@,
                forall|j: int| 0 <= j < i ==> !key_has_id(#[trigger] self.keys@[j], kid@),
            decreases self.keys@.len() - i,
        {
            let found = match &self.keys[i].key_id {
                Some(id) => *id == wanted,
                None => false,
            };
            if found {
                return Some(i);
            }
            i = i + 1;
        }
        None
    }

    /// The first key that carries the key id `kid`, if any.
    pub fn find(&self, kid: &str) -> (r: Option<&JsonWebKey>)
        ensures
            r matches Some(k) ==> exists|i: int| first_key_with_id(self.keys@, kid@, i) && *k == self.keys@[i],
            r matches Some(k) ==> k.key_id is Some && k.key_id->0@ == kid@,
            r is None ==> forall|j: int| 0 <= j < self.keys@.len() ==> !key_has_id(#[trigger] self.keys@[j], kid@),
    {
        match self.find_index(kid) {
            Some(i) => Some(&self.keys[i]),
            None => None,
        }
    }
}

/// The first key that carries a key id is the only one of which that holds.
pub proof fn lemma_first_key_unique(keys: Seq<JsonWebKey>, kid: Seq<char>, i: int, j: int)
    requires
        first_key_with_id(keys, kid, i),
        first_key_with_id(keys, kid, j),
    ensures
        i == j,
{
    if i < j {
        assert(!key_has_id(keys[i], kid));
    } else if j < i {
        assert(!key_has_id(keys[j], kid));
    }
}

/// The first key with the key id `kid` carries exactly that id, compared as
/// whole text, and no key before it does.
pub proof fn law_first_key_carries_the_id(keys: Seq<JsonWebKey>, kid: Seq<char>, i: int)
    requires
        first_key_with_id(keys, kid, i),
    ensures
        0 <= i < keys.len(),
        keys[i].key_id is Some,
        keys[i].key_id->0@ == kid,
        forall|j: int|
            0 <= j < i ==> (#[trigger] keys[j]).key_id is None || keys[j].key_id->0@ != kid,
{
    assert forall|j: int| 0 <= j < i implies (#[trigger] keys[j]).key_id is None
        || keys[j].key_id->0@ != kid by {
        assert(!key_has_id(keys[j], kid));
    }
}

impl JsonWebKeySet {
    /// The RSA parameters of the first key that carries the key id `kid`,
    /// when that key is an RSA key.
    pub open spec fn rsa_params_for(&self, kid: Seq<char>) -> Option<RSAKeyParameters> {
        if self.has_rsa_key(kid) {
            let i = choose|i: int|
                first_key_with_id(self.keys@, kid, i) && (#[trigger] self.keys@[i]).rsa is Some;
            self.keys@[i].rsa
        } else {
            None
        }
    }

    /// The RSA parameters of the first key that carries the key id `kid`, as
    /// `rsa_params_for` says.
    pub fn rsa_key_lookup(&self, kid: &str) -> (r: Option<&RSAKeyParameters>)
        ensures
            r matches Some(p) ==> self.rsa_params_for(kid@) == Some(*p),
            r is None ==> self.rsa_params_for(kid@) is None,
    {
        match self.find_index(kid) {
            Some(i) => {
                proof {
                    if self.has_rsa_key(kid@) {
                        let k = choose|k: int|
                            first_key_with_id(self.keys@, kid@, k) && (#[trigger] self.keys@[k]).rsa is Some;
                        lemma_first_key_unique(self.keys@, kid@, i as int, k);
                    }
                }
                match &self.keys[i].rsa {
                    Some(p) => Some(p),
                    None => None,
                }
            },
            None => {
                proof {
                    if self.has_rsa_key(kid@) {
                        let k = choose|k: int|
                            first_key_with_id(self.keys@, kid@, k) && (#[trigger] self.keys@[k]).rsa is Some;
                        assert(key_has_id(self.keys@[k], kid@));
                    }
                }
                None
            },
        }
    }
}

/// The maybe-missing text of an optional string.
pub open spec fn opt_string_view(o: Option<String>) -> Option<Seq<char>> {
    match o {
        Some(s) => Some(s@),
        None => None,
    }
}

/// The header of the token `token` as biscuit reads it without checking the
/// signature: the name of its signature algorithm (`RS256`, `HS256`, `None`,
/// ...) and its key id, `None` when the header cannot be read. It depends on
/// the token alone.
pub uninterp spec fn jwt_header(token: Seq<char>) -> Option<(Seq<char>, Option<Seq<char>>)>;

/// biscuit's `Compact::new_encoded` followed by `unverified_header`: the
/// algorithm (by its variant name) and the key id of the header of a token.
/// Trusted: the result is `jwt_header(token@)`.
#[verifier::external_body]
fn jwt_unverified_header(token: &str) -> (r: Option<(String, Option<String>)>)
    ensures
        r is Some <==> jwt_header(token@) is Some,
        r matches Some(h) ==> jwt_header(token@) == Some((h.0@, opt_string_view(h.1))),
{
    match biscuit::jws::Compact::<Vec<u8>, biscuit::Empty>::new_encoded(token).unverified_header() {
        Ok(h) => Some((format!("{:?}", h.registered.algorithm), h.registered.key_id)),
        Err(_) => None,
    }
}

/// The verification secret that biscuit's `jws_public_key_secret` builds from
/// RSA parameters: their modulus and exponent, copied. It depends on the
/// parameters alone.
pub uninterp spec fn rsa_key_secret(params: RSAKeyParameters) -> Secret;

/// biscuit's `RSAKeyParameters::jws_public_key_secret`: the RSA modulus and
/// exponent as a verification secret. Trusted: the result is
/// `rsa_key_secret(*params)`; the function only copies `n` and `e` into a
/// `Secret::RSAModulusExponent`.
#[verifier::external_body]
fn rsa_public_key_secret(params: &RSAKeyParameters) -> (r: Secret)
    ensures
        r == rsa_key_secret(*params),
{
    params.jws_public_key_secret()
}

/// The payload bytes of the token `token` when its RS256 signature verifies
/// under `secret` and its header names the algorithm RS256; `None` otherwise
/// (bad signature, other algorithm, malformed token). This is what biscuit's
/// `into_decoded` with `RS256` gives on a compact token whose payload is kept
/// as raw bytes; it depends on the token and the secret alone.
pub uninterp spec fn jws_rs256_payload(token: Seq<char>, secret: Secret) -> Option<Seq<u8>>;

/// biscuit's `Compact::new_encoded` then `into_decoded` with `RS256`, the
/// payload kept as raw bytes (no claim is read here). The secret must be the
/// modulus and exponent of RSA parameters: biscuit reaches `unreachable!` for
/// other secrets. Trusted: success and the bytes are
/// `jws_rs256_payload(token@, *secret)`, and a token that decodes has a header
/// that names RS256 (biscuit refuses any other algorithm header with
/// `WrongAlgorithmHeader`). An error is handed back as its message, of which
/// nothing is stated.
#[verifier::external_body]
fn jws_decode_rs256(token: &str, secret: &Secret) -> (r: Result<Vec<u8>, String>)
    requires
        exists|p: RSAKeyParameters| *secret == rsa_key_secret(p),
    ensures
        r is Ok <==> jws_rs256_payload(token@, *secret) is Some,
        r matches Ok(b) ==> b@ == jws_rs256_payload(token@, *secret)->0,
        r is Ok ==> (jwt_header(token@) matches Some(h) && h.0 == "RS256"@),
{
    let compact = biscuit::jws::Compact::<Vec<u8>, biscuit::Empty>::new_encoded(token);
    match compact.into_decoded(secret, biscuit::jwa::SignatureAlgorithm::RS256) {
        Ok(decoded) => match decoded.payload() {
            Ok(p) => Ok(p.clone()),
            Err(e) => Err(e.to_string()),
        },
        Err(e) => Err(e.to_string()),
    }
}

/// The current time, read from the clock (`chrono::Utc::now`, as a UTC date
/// and time). Nothing is stated of it.
#[verifier::external_body]
fn clock_now() -> NaiveDateTime {
    chrono::Utc::now().naive_utc()
}

/// Whether the registered claims `claims` pass biscuit's default validation
/// (expiry, not-before and issued-at; no claim required; no issuer or
/// audience checked) at the time `now`. It depends on the claims and the time
/// alone.
pub uninterp spec fn claims_valid_at(claims: RegisteredClaims, now: NaiveDateTime) -> bool;

/// biscuit's `RegisteredClaims::validate` with the default options, the time
/// of the temporal checks set to `now`. Trusted: success is
/// `claims_valid_at(*claims, *now)`; an error is handed back as its message.
#[verifier::external_body]
fn registered_validate_at(claims: &RegisteredClaims, now: &NaiveDateTime) -> (r: Result<(), String>)
    ensures
        r is Ok <==> claims_valid_at(*claims, *now),
{
    let options = biscuit::ValidationOptions {
        temporal_options: biscuit::TemporalOptions { now: Some(now.and_utc()), ..Default::default() },
        ..Default::default()
    };
    match claims.validate(options) {
        Ok(()) => Ok(()),
        Err(e) => Err(e.to_string()),
    }
}

/// What reading the claims of a token's payload gives: its registered claims
/// and the user of its private claims, or the message of the failure.
pub type ClaimsReading = Result<(RegisteredClaims, AuthUser), String>;

/// `r` is what a token whose signature verified gives at time `now` when
/// reading its claims gave `out`: `Unauthorized` with the message of a failed
/// reading; the user when its registered claims are valid at `now`;
/// `Unauthorized` otherwise.
pub open spec fn claims_result(out: ClaimsReading, now: NaiveDateTime, r: Result<AuthUser, ServiceError>) -> bool {
    match out {
        Err(msg) => r == Err::<AuthUser, ServiceError>(ServiceError::Unauthorized(msg)),
        Ok(c) => if claims_valid_at(c.0, now) {
            r == Ok::<AuthUser, ServiceError>(c.1)
        } else {
            r matches Err(ServiceError::Unauthorized(_))
        },
    }
}

/// The user of a token whose signature verified, given what reading its
/// claims gave and the time of the check, as `claims_result` says.
pub fn user_from_checked_claims(out: ClaimsReading, now: &NaiveDateTime) -> (r: Result<
    AuthUser,
    ServiceError,
>)
    ensures
        claims_result(out, *now, r),
{
    match out {
        Ok(c) => {
            let (registered, user) = c;
            match registered_validate_at(&registered, now) {
                Ok(()) => Ok(user),
                Err(msg) => Err(ServiceError::Unauthorized(msg)),
            }
        },
        Err(msg) => Err(ServiceError::Unauthorized(msg)),
    }
}

/// Something that verifies tokens and reads a payload from their claims.
pub trait IJWTHandler<Payload> {
    /// The tokens on which `verify` is defined.
    spec fn accepts(&self, jwt: Seq<char>) -> bool;

    /// Verifies `jwt`, reading the claims of its payload with `read_claims`.
    fn verify<F: Fn(Vec<u8>) -> Result<(RegisteredClaims, Payload), String>>(
        &self,
        jwt: &str,
        read_claims: F,
    ) -> (r: Result<Payload, ServiceError>)
        requires
            self.accepts(jwt@),
            forall|v: Vec<u8>| call_requires(read_claims, (v,)),
    ;
}

/// Verifies RS256 tokens against a set of JSON web keys.
pub struct JWTHandler {
    pub issuer: String,
    pub public_key: JsonWebKeySet,
}

impl JWTHandler {
    /// A handler for the keys `public_key`, issuer `example.com`.
    pub fn new(public_key: JsonWebKeySet) -> (h: JWTHandler)
        ensures
            h.issuer@ == "example.com"@,
            h.public_key == public_key,
    {
        JWTHandler { issuer: String::from_str("example.com"), public_key }
    }

    /// The RSA parameters of the key that the header of `jwt` names: the
    /// first key of the set with the header's key id, when it is an RSA key.
    pub open spec fn token_key(&self, jwt: Seq<char>) -> Option<RSAKeyParameters> {
        match jwt_header(jwt) {
            Some((_, Some(kid))) => self.public_key.rsa_params_for(kid),
            _ => None,
        }
    }

    /// The payload of `jwt` when its RS256 signature verifies under the key
    /// that its header names.
    pub open spec fn token_payload(&self, jwt: Seq<char>) -> Option<Seq<u8>> {
        match self.token_key(jwt) {
            Some(p) => jws_rs256_payload(jwt, rsa_key_secret(p)),
            None => None,
        }
    }

    /// The tokens that `verify` takes: the header names an RSA key of the set
    /// (the original reading of such a header unwraps).
    pub open spec fn can_verify(&self, jwt: Seq<char>) -> bool {
        self.token_key(jwt) is Some
    }

    /// `r` is what verifying `jwt` at the time `now` gives when the claims of
    /// its payload are read with `read_claims`: `Unauthorized` when the
    /// signature does not verify under the key that the header names (or the
    /// header names another algorithm than RS256); otherwise the reading of
    /// the verified payload decides, as `claims_result` says.
    pub open spec fn verify_result_at<F: Fn(Vec<u8>) -> ClaimsReading>(
        &self,
        jwt: Seq<char>,
        now: NaiveDateTime,
        read_claims: F,
        r: Result<AuthUser, ServiceError>,
    ) -> bool {
        &&& (self.token_payload(jwt) is None ==> r matches Err(ServiceError::Unauthorized(_)))
        &&& (self.token_payload(jwt) matches Some(b) ==> exists|v: Vec<u8>, out: ClaimsReading|
            v@ == b && #[trigger] call_ensures(read_claims, (v,), out) && claims_result(out, now, r))
        &&& (r is Ok ==> (jwt_header(jwt) matches Some(h) && h.0 == "RS256"@))
        &&& (r matches Err(e) ==> e is Unauthorized)
    }

    /// The key id of the header of `jwt`, when it names one.
    fn header_key_id(jwt: &str) -> (r: Option<String>)
        ensures
            r matches Some(kid) ==> jwt_header(jwt@) matches Some(h) && h.1 == Some(kid@),
            r is None ==> !(jwt_header(jwt@) matches Some(h) && h.1 is Some),
    {
        match jwt_unverified_header(jwt) {
            Some((_, kid)) => kid,
            None => None,
        }
    }

    /// Decides `can_verify`.
    pub fn verifiable(&self, jwt: &str) -> (r: bool)
        ensures
            r == self.can_verify(jwt@),
    {
        match JWTHandler::header_key_id(jwt) {
            Some(kid) => self.public_key.rsa_key_lookup(kid.as_str()).is_some(),
            None => false,
        }
    }

    /// The verification secret of the RSA key with the key id `kid`.
    pub fn get_key_from_jwk(&self, kid: &str) -> (r: Secret)
        requires
            self.public_key.rsa_params_for(kid@) is Some,
        ensures
            r == rsa_key_secret(self.public_key.rsa_params_for(kid@)->0),
    {
        match self.public_key.rsa_key_lookup(kid) {
            Some(p) => rsa_public_key_secret(p),
            None => unreached(),
        }
    }

    /// Verifies `jwt` at the time `now`: checks its RS256 signature with the
    /// key that its header names, reads the claims of the verified payload
    /// with `read_claims`, and checks the registered claims at `now`, as
    /// `verify_result_at` says.
    pub fn verify_at<F: Fn(Vec<u8>) -> ClaimsReading>(
        &self,
        jwt: &str,
        now: &NaiveDateTime,
        read_claims: F,
    ) -> (r: Result<AuthUser, ServiceError>)
        requires
            self.can_verify(jwt@),
            forall|v: Vec<u8>| call_requires(read_claims, (v,)),
        ensures
            self.verify_result_at(jwt@, *now, read_claims, r),
    {
        let kid = match JWTHandler::header_key_id(jwt) {
            Some(kid) => kid,
            None => unreached(),
        };
        let secret = self.get_key_from_jwk(kid.as_str());
        let bytes = match jws_decode_rs256(jwt, &secret) {
            Ok(b) => b,
            Err(msg) => {
                return Err(ServiceError::Unauthorized(msg));
            },
        };
        let ghost b = bytes;
        let out = read_claims(bytes);
        let r = user_from_checked_claims(out, now);
        proof {
            assert(call_ensures(read_claims, (b,), out) && claims_result(out, *now, r));
        }
        r
    }
}

impl IJWTHandler<AuthUser> for JWTHandler {
    open spec fn accepts(&self, jwt: Seq<char>) -> bool {
        self.can_verify(jwt)
    }

    /// Verifies `jwt` at the time that the clock gives, as `verify_at` does.
    fn verify<F: Fn(Vec<u8>) -> ClaimsReading>(&self, jwt: &str, read_claims: F) -> (r: Result<
        AuthUser,
        ServiceError,
    >)
        ensures
            exists|now: NaiveDateTime| self.verify_result_at(jwt@, now, read_claims, r),
    {
        let now = clock_now();
        let r = self.verify_at(jwt, &now, read_claims);
        proof {
            assert(self.verify_result_at(jwt@, now, read_claims, r));
        }
        r
    }
}

} // verus!
