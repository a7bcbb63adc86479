use crate::conn_pool::{mysql_url_ok, ConnPool};
use crate::error::{http_error_of, HttpError, ServiceError};
use crate::initializer::{AppContext, Config};
use crate::jwt_handler::{claims_result, claims_valid_at, ClaimsReading, JsonWebKeySet};
use biscuit::RegisteredClaims;
use chrono::NaiveDateTime;
use crate::model::{role_rank, AuthUser, Role};
use vstd::prelude::*;

verus! {

/// The text that precedes the token in an authorization header.
pub open spec fn bearer_prefix() -> Seq<char> {
    "Bearer "@
}

/// `"Bearer "` occurs in `s` at position `i`.
pub open spec fn bearer_at(s: Seq<char>, i: int) -> bool {
    0 <= i && i + 7 <= s.len() && s.subrange(i, i + 7) == bearer_prefix()
}

/// `"Bearer "` occurs in `s` at `i` and nowhere else.
pub open spec fn bearer_only_at(s: Seq<char>, i: int) -> bool {
    bearer_at(s, i) && forall|j: int| #[trigger] bearer_at(s, j) ==> j == i
}

/// The token of an authorization header: splitting the header at each
/// `"Bearer "` must give exactly two pieces, and the token is the second one.
pub open spec fn bearer_token_of(s: Seq<char>) -> Option<Seq<char>> {
    if exists|i: int| #[trigger] bearer_only_at(s, i) {
        let i = choose|i: int| #[trigger] bearer_only_at(s, i);
        Some(s.subrange(i + 7, s.len() as int))
    } else {
        None
    }
}

/// A header that is `"Bearer "` followed by a token in which `"Bearer "` does
/// not occur gives that token back.
pub proof fn lemma_bearer_header_gives_token(t: Seq<char>)
    requires
        forall|i: int| !(#[trigger] bearer_at(t, i)),
    ensures
        bearer_token_of(bearer_prefix() + t) == Some(t),
{
    let s = bearer_prefix() + t;
    reveal_strlit("Bearer ");
    assert(s.subrange(0, 7) =~= bearer_prefix());
    assert forall|j: int| #[trigger] bearer_at(s, j) implies j == 0 by {
        if 1 <= j < 7 {
            assert(s.subrange(j, j + 7)[0] == s[j]);
            assert(bearer_prefix()[0] == 'B');
        } else if j >= 7 {
            assert(t.subrange(j - 7, j) =~= s.subrange(j, j + 7));
            assert(bearer_at(t, j - 7));
        }
    }
    assert(bearer_only_at(s, 0));
    let i = choose|i: int| #[trigger] bearer_only_at(s, i);
    assert(i == 0);
    assert(s.subrange(7, s.len() as int) =~= t);
}

fn bearer_at_exec(s: &str, n: usize, i: usize) -> (r: bool)
    requires
        n == s@.len(),
        i + 7 <= n,
    ensures
        r == bearer_at(s@, i as int),
{
    let pattern = "Bearer ";
    proof {
        reveal_strlit("Bearer ");
    }
    let mut k: usize = 0;
    while k < 7
        invariant
            k <= 7,
            n == s@.len(),
            i + 7 <= n,
            pattern@ == bearer_prefix(),
            pattern@.len() == 7,
            forall|m: int| 0 <= m < k ==> s@[i + m] == pattern@[m],
        decreases 7 - k,
    {
        if s.get_char(i + k) != pattern.get_char(k) {
            proof {
                assert(s@.subrange(i as int, i + 7)[k as int] == s@[i + k]);
            }
            return false;
        }
        k = k + 1;
    }
    assert(s@.subrange(i as int, i + 7) =~= bearer_prefix());
    true
}

/// The token of an authorization header, as `bearer_token_of` says.
pub fn bearer_token(header: &str) -> (r: Option<String>)
    ensures
        r is Some <==> bearer_token_of(header@) is Some,
        r matches Some(t) ==> t@ == bearer_token_of(header@)->0,
{
    let n = header.unicode_len();
    let mut first: Option<usize> = None;
    let mut i: usize = 0;
    while i <= n && n - i >= 7
        invariant
            n == header@.len(),
            i <= n,
            first is None ==> forall|j: int| 0 <= j < i ==> !(#[trigger] bearer_at(header@, j)),
            first matches Some(f) ==> {
                &&& f < i
                &&& bearer_at(header@, f as int)
                &&& forall|j: int| 0 <= j < i && j != f ==> !(#[trigger] bearer_at(header@, j))
            },
        decreases n + 1 - i,
    {
        if bearer_at_exec(header, n, i) {
            match first {
                Some(f) => {
                    proof {
                        assert(bearer_at(header@, i as int));
                        assert forall|c: int| !(#[trigger] bearer_only_at(header@, c)) by {
                            if bearer_only_at(header@, c) {
                                assert(bearer_at(header@, f as int));
                                assert(bearer_at(header@, i as int));
                            }
                        }
                    }
                    return None;
                },
                None => {
                    first = Some(i);
                },
            }
        }
        i = i + 1;
    }
    match first {
        None => {
            proof {
                assert forall|c: int| !(#[trigger] bearer_only_at(header@, c)) by {
                    if bearer_only_at(header@, c) {
                        assert(bearer_at(header@, c));
                    }
                }
            }
            None
        },
        Some(f) => {
            proof {
                assert forall|j: int| #[trigger] bearer_at(header@, j) implies j == f by {
                    if j != f {
                        assert(0 <= j < i);
                    }
                }
                assert(bearer_only_at(header@, f as int));
                let c = choose|c: int| #[trigger] bearer_only_at(header@, c);
                assert(bearer_at(header@, c));
            }
            let t = header.substring_char(f + 7, n);
            Some(String::from_str(t))
        },
    }
}

/// `e` is the answer "401 Unauthorized" with the message `msg`.
pub open spec fn unauthorized_answer(e: HttpError, msg: Seq<char>) -> bool {
    &&& e.status == 401
    &&& e.cause matches ServiceError::GeneralError(m)
    &&& m@ == msg
}

/// `r` is what checking the outcome `o` of a token verification against the
/// required role gives: the error of a failed verification; `None` (the
/// request is aborted) for a user without roles when a role is required;
/// "Role is not enough" when the first role of the user is below the
/// required one; the user otherwise.
pub open spec fn role_check_result(
    o: Result<AuthUser, ServiceError>,
    required: Option<Role>,
    r: Option<Result<AuthUser, HttpError>>,
) -> bool {
    match o {
        Err(e) => r == Some(Err::<AuthUser, HttpError>(http_error_of(e))),
        Ok(u) => match required {
            None => r == Some(Ok::<AuthUser, HttpError>(u)),
            Some(c) => if u.role@.len() == 0 {
                r is None
            } else if role_rank(u.role@[0]) < role_rank(c) {
                (r matches Some(Err(e)) && unauthorized_answer(e, "Role is not enough"@))
            } else {
                r == Some(Ok::<AuthUser, HttpError>(u))
            },
        },
    }
}

/// With a required role, a verified user that has roles is admitted exactly
/// when the first of its roles is not below the required one, and refused
/// with 401 "Role is not enough" otherwise.
pub proof fn law_role_check_reads_first_role(
    u: AuthUser,
    c: Role,
    r: Option<Result<AuthUser, HttpError>>,
)
    requires
        u.role@.len() > 0,
        role_check_result(Ok(u), Some(c), r),
    ensures
        r == Some(Ok::<AuthUser, HttpError>(u)) <==> !(role_rank(u.role@[0]) < role_rank(c)),
        role_rank(u.role@[0]) < role_rank(c) ==> (r matches Some(Err(e)) && e.status == 401
            && (e.cause matches ServiceError::GeneralError(m) && m@ == "Role is not enough"@)),
{
}

/// Only the first role of a user counts: two users with the same first role
/// are both admitted or both refused for any required role, whatever their
/// other roles.
pub proof fn law_role_check_ignores_later_roles(
    u1: AuthUser,
    u2: AuthUser,
    c: Role,
    r1: Option<Result<AuthUser, HttpError>>,
    r2: Option<Result<AuthUser, HttpError>>,
)
    requires
        u1.role@.len() > 0,
        u2.role@.len() > 0,
        u1.role@[0] == u2.role@[0],
        role_check_result(Ok(u1), Some(c), r1),
        role_check_result(Ok(u2), Some(c), r2),
    ensures
        (r1 matches Some(Ok(_))) == (r2 matches Some(Ok(_))),
        r1 matches Some(Ok(v)) ==> v == u1,
        r2 matches Some(Ok(v)) ==> v == u2,
{
}

/// Requiring the role `Writer`, the lowest of the order, refuses no verified
/// user that has a role.
pub proof fn lemma_writer_requirement_admits_every_role(
    u: AuthUser,
    r: Option<Result<AuthUser, HttpError>>,
)
    requires
        u.role@.len() > 0,
        role_check_result(Ok(u), Some(Role::Writer), r),
    ensures
        r == Some(Ok::<AuthUser, HttpError>(u)),
{
}

/// Without a required role every verified user is admitted.
pub proof fn lemma_no_requirement_admits_every_user(
    u: AuthUser,
    r: Option<Result<AuthUser, HttpError>>,
)
    requires
        role_check_result(Ok(u), None, r),
    ensures
        r == Some(Ok::<AuthUser, HttpError>(u)),
{
}

/// A request that `authorize` admits carries a token that the handler takes,
/// whose signature verified under the key that its header names, and the
/// admitted user is the one read from its verified claims, whose registered
/// claims held at the time of the check; when a role is required, the user
/// has a role and the first one is not below it.
pub proof fn lemma_admitted_user_comes_from_token<F: Fn(Vec<u8>) -> ClaimsReading>(
    ctx: WebContext,
    h: String,
    t: Seq<char>,
    required: Option<Role>,
    read_claims: F,
    u: AuthUser,
)
    requires
        bearer_token_of(h@) == Some(t),
        ctx.authorize_result(Some(h), required, read_claims, Some(Ok(u))),
    ensures
        ctx.takes_token(t),
        ctx.app.services.auth_service.jwt_handler.token_payload(t) is Some,
        exists|now: NaiveDateTime, v: Vec<u8>, c: RegisteredClaims|
            v@ == ctx.app.services.auth_service.jwt_handler.token_payload(t)->0
                && #[trigger] call_ensures(read_claims, (v,), Ok::<(RegisteredClaims, AuthUser), String>((c, u)))
                && #[trigger] claims_valid_at(c, now),
        required matches Some(c) ==> u.role@.len() > 0 && role_rank(c) <= role_rank(u.role@[0]),
{
    let o = choose|o: Result<AuthUser, ServiceError>|
        #[trigger] ctx.verified_outcome(t, read_claims, o) && role_check_result(o, required, Some(Ok(u)));
    assert(ctx.verified_outcome(t, read_claims, o));
    let handler = ctx.app.services.auth_service.jwt_handler;
    let now = choose|now: NaiveDateTime| handler.verify_result_at(t, now, read_claims, o);
    assert(o == Ok::<AuthUser, ServiceError>(u));
    let b = handler.token_payload(t)->0;
    let (v, out) = choose|v: Vec<u8>, out: ClaimsReading|
        v@ == b && #[trigger] call_ensures(read_claims, (v,), out) && claims_result(out, now, o);
    let pair = out->Ok_0;
    assert(out == Ok::<(RegisteredClaims, AuthUser), String>((pair.0, u)));
}

/// Checks the outcome of a token verification against the required role.
pub fn check_user_role(outcome: Result<AuthUser, ServiceError>, required: Option<Role>) -> (r:
    Option<Result<AuthUser, HttpError>>)
    ensures
        role_check_result(outcome, required, r),
        outcome matches Ok(u) ==> (required matches Some(c) ==> (u.role@.len() > 0 ==> (r == Some(
            Ok::<AuthUser, HttpError>(u),
        ) <==> !(role_rank(u.role@[0]) < role_rank(c))))),
        outcome matches Ok(u) ==> (required matches Some(c) ==> (u.role@.len() > 0 ==> (role_rank(
            u.role@[0],
        ) < role_rank(c) ==> (r matches Some(Err(e)) && e.status == 401)))),
{
    let user = match outcome {
        Ok(u) => u,
        Err(e) => {
            return Some(Err(e.to_http_error()));
        },
    };
    match required {
        Some(check_role) => {
            if user.role.len() == 0 {
                return None;
            }
            if user.role[0].less_than(&check_role) {
                let msg = String::from_str("Role is not enough");
                proof {
                    reveal_strlit("Role is not enough");
                }
                return Some(
                    Err(HttpError { status: 401, cause: ServiceError::GeneralError(msg) }),
                );
            }
            Some(Ok(user))
        },
        None => Some(Ok(user)),
    }
}

/// What serde_json gives back when it parses the bytes `body` as a JSON
/// string: `Some` with its contents, `None` when `body` is no JSON string.
pub uninterp spec fn json_decode_bytes(body: Seq<u8>) -> Option<Seq<char>>;

/// The lowercase hexadecimal digit of `n`, for `n < 16`.
pub open spec fn hex_digit(n: int) -> char {
    seq!['0', '1', '2', '3', '4', '5', '6', '7', '8', '9', 'a', 'b', 'c', 'd', 'e', 'f'][n]
}

/// How serde_json writes the character `c` inside a JSON string: `"` and `\`
/// behind a backslash; backspace, tab, line feed, form feed and carriage
/// return as `\b`, `\t`, `\n`, `\f`, `\r`; the other characters below
/// 0x20 as `\u00` and two lowercase hexadecimal digits; everything else
/// as itself.
pub open spec fn json_escape_char(c: char) -> Seq<char> {
    let n = c as int;
    if c == '"' {
        seq!['\\', '"']
    } else if c == '\\' {
        seq!['\\', '\\']
    } else if n == 0x08 {
        seq!['\\', 'b']
    } else if n == 0x09 {
        seq!['\\', 't']
    } else if n == 0x0a {
        seq!['\\', 'n']
    } else if n == 0x0c {
        seq!['\\', 'f']
    } else if n == 0x0d {
        seq!['\\', 'r']
    } else if n < 0x20 {
        seq!['\\', 'u', '0', '0', hex_digit(n / 16), hex_digit(n % 16)]
    } else {
        seq![c]
    }
}

/// The characters of `s`, each written as serde_json writes it inside a
/// JSON string.
pub open spec fn json_escaped(s: Seq<char>) -> Seq<char>
    decreases s.len(),
{
    if s.len() == 0 {
        Seq::empty()
    } else {
        json_escaped(s.drop_last()) + json_escape_char(s.last())
    }
}

/// The JSON text that serde_json writes for the string `s`: `s` escaped,
/// between double quotes.
pub open spec fn json_encoded_str(s: Seq<char>) -> Seq<char> {
    seq!['"'] + json_escaped(s) + seq!['"']
}

/// Parses a request body as a JSON string with `serde_json::from_slice::<String>`.
/// Trusted: success and the string are `json_decode_bytes(body@)`; an error is
/// handed back as its message, of which nothing is stated.
#[verifier::external_body]
fn json_from_slice(body: &[u8]) -> (r: Result<String, String>)
    ensures
        r is Ok <==> json_decode_bytes(body@) is Some,
        r matches Ok(s) ==> s@ == json_decode_bytes(body@)->0,
{
    match serde_json::from_slice::<String>(body) {
        Ok(s) => Ok(s),
        Err(e) => Err(e.to_string()),
    }
}

/// Writes a string as JSON with `serde_json::to_string`. Trusted: the text is
/// `json_encoded_str(s@)` (serde_json's `format_escaped_str` with the compact
/// formatter), and writing a string does not fail (its
/// documentation names only failing `Serialize` impls and maps with non-string
/// keys as causes of failure).
#[verifier::external_body]
fn json_to_string(s: &str) -> (r: Option<String>)
    ensures
        r is Some,
        r is Some ==> r->0@ == json_encoded_str(s@),
{
    serde_json::to_string(s).ok()
}

/// The answer of the echo endpoint once the body has been read as `input`
/// and the request authorized with the outcome `auth`: the authorization
/// failure, or the input written as JSON.
pub open spec fn echo_answer_of(
    input: Seq<char>,
    auth: Option<Result<AuthUser, HttpError>>,
    r: Option<Result<String, HttpError>>,
) -> bool {
    match auth {
        None => r is None,
        Some(Err(e)) => r == Some(Err::<String, HttpError>(e)),
        Some(Ok(_)) => r matches Some(Ok(out)) && out@ == json_encoded_str(input),
    }
}

/// The web layer: the application behind the HTTP handlers.
pub struct WebContext {
    pub app: AppContext,
}

impl WebContext {
    pub fn new(config: Config, public_key: JsonWebKeySet) -> (w: WebContext)
        requires
            mysql_url_ok(config.database_url@),
        ensures
            w.app.infras.db_pool.database_url@ == config.database_url@,
            w.app.infras.jwt_handler.public_key == public_key,
            w.app.services.auth_service.jwt_handler == w.app.infras.jwt_handler,
            w.app.services.problem_service.problem_repo == w.app.serviceclient.problem_repo,
            w.app.serviceclient.problem_repo.db == w.app.infras.db_pool,
    {
        WebContext { app: AppContext::new(config, public_key) }
    }

    /// The web layer of the configuration when its database URL is one that
    /// mysql_async reads; `None` otherwise.
    pub fn try_new(config: Config, public_key: JsonWebKeySet) -> (w: Option<WebContext>)
        ensures
            w is Some <==> mysql_url_ok(config.database_url@),
            w matches Some(w) ==> {
                &&& w.app.infras.db_pool.database_url@ == config.database_url@
                &&& w.app.infras.jwt_handler.public_key == public_key
                &&& w.app.services.auth_service.jwt_handler == w.app.infras.jwt_handler
            },
    {
        match ConnPool::try_from_url(config.database_url.as_str()) {
            Some(_) => Some(WebContext::new(config, public_key)),
            None => None,
        }
    }

    /// Whether the token handler of the application takes `token`.
    pub open spec fn takes_token(&self, token: Seq<char>) -> bool {
        self.app.services.auth_service.jwt_handler.can_verify(token)
    }

    /// `o` is an outcome that verifying `token` may give, at some time of the
    /// clock, its claims read with `read_claims`.
    pub open spec fn verified_outcome<F: Fn(Vec<u8>) -> ClaimsReading>(
        &self,
        token: Seq<char>,
        read_claims: F,
        o: Result<AuthUser, ServiceError>,
    ) -> bool {
        exists|now: NaiveDateTime|
            self.app.services.auth_service.jwt_handler.verify_result_at(token, now, read_claims, o)
    }

    /// `r` is the answer of `authorize` for the header `authorization` and the
    /// required role `required`: 401 "Empty token" without a header, 401
    /// "Invalid token" when the header does not hold `"Bearer "` exactly once,
    /// `None` for a token that cannot be verified, and otherwise the role check
    /// of the outcome of verifying the token.
    pub open spec fn authorize_result<F: Fn(Vec<u8>) -> ClaimsReading>(
        &self,
        authorization: Option<String>,
        required: Option<Role>,
        read_claims: F,
        r: Option<Result<AuthUser, HttpError>>,
    ) -> bool {
        match authorization {
            None => r matches Some(Err(e)) && unauthorized_answer(e, "Empty token"@),
            Some(h) => match bearer_token_of(h@) {
                None => r matches Some(Err(e)) && unauthorized_answer(e, "Invalid token"@),
                Some(t) => if self.takes_token(t) {
                    exists|o: Result<AuthUser, ServiceError>| #[trigger]
                        self.verified_outcome(t, read_claims, o) && role_check_result(o, required, r)
                } else {
                    r is None
                },
            },
        }
    }

    /// Authorizes the request whose authorization header is `authorization`,
    /// requiring `validate_user_role` when it is given. `None` means that the
    /// request is aborted: its token cannot be verified (see `can_verify`), or
    /// its user has no role while one is required.
    pub fn authorize<F: Fn(Vec<u8>) -> ClaimsReading>(
        &self,
        authorization: Option<String>,
        validate_user_role: Option<Role>,
        read_claims: F,
    ) -> (r: Option<Result<AuthUser, HttpError>>)
        requires
            forall|v: Vec<u8>| call_requires(read_claims, (v,)),
        ensures
            self.authorize_result(authorization, validate_user_role, read_claims, r),
            r matches Some(Err(e)) ==> e.status == 401,
    {
        let header = match authorization {
            Some(h) => h,
            None => {
                let msg = String::from_str("Empty token");
                proof {
                    reveal_strlit("Empty token");
                }
                return Some(Err(HttpError { status: 401, cause: ServiceError::GeneralError(msg) }));
            },
        };
        let token = match bearer_token(header.as_str()) {
            Some(t) => t,
            None => {
                let msg = String::from_str("Invalid token");
                proof {
                    reveal_strlit("Invalid token");
                }
                return Some(Err(HttpError { status: 401, cause: ServiceError::GeneralError(msg) }));
            },
        };
        if !self.app.services.auth_service.jwt_handler.verifiable(token.as_str()) {
            return None;
        }
        let outcome = self.app.services.auth_service.authorize(token.as_str(), read_claims);
        let ghost o = outcome;
        let r = check_user_role(outcome, validate_user_role);
        proof {
            assert(self.verified_outcome(token@, read_claims, o) && role_check_result(
                o,
                validate_user_role,
                r,
            ));
        }
        r
    }

    /// What answering `r` to the echo request with the input `input` and the
    /// authorization header `authorization` means when authorization gave
    /// `auth`: `auth` is what `authorize` answers for that header and the role
    /// `Writer`, and `r` is the echo answer for it.
    pub open spec fn echo_outcome<F: Fn(Vec<u8>) -> ClaimsReading>(
        &self,
        input: Seq<char>,
        authorization: Option<String>,
        read_claims: F,
        auth: Option<Result<AuthUser, HttpError>>,
        r: Option<Result<String, HttpError>>,
    ) -> bool {
        &&& self.authorize_result(authorization, Some(Role::Writer), read_claims, auth)
        &&& (auth matches Some(Err(e)) ==> e.status == 401)
        &&& echo_answer_of(input, auth, r)
    }

    /// The answer of the echo endpoint for the input `input` once
    /// authorization answered `auth`, as `echo_answer_of` says.
    pub fn echo_reply(&self, input: String, auth: Option<Result<AuthUser, HttpError>>) -> (r: Option<
        Result<String, HttpError>,
    >)
        ensures
            echo_answer_of(input@, auth, r),
    {
        match auth {
            None => None,
            Some(Err(e)) => Some(Err(e)),
            Some(Ok(_)) => {
                let res = match self.app.services.echo_service.echo(input) {
                    Ok(res) => res,
                    Err(e) => {
                        return Some(Err(e.to_http_error()));
                    },
                };
                match json_to_string(res.as_str()) {
                    Some(out) => Some(Ok(out)),
                    None => unreached(),
                }
            },
        }
    }

    /// The echo endpoint: reads the body as a JSON string (400 when it is
    /// not one), authorizes the request for writers (the claims of its token
    /// read with `read_claims`), and answers the string as JSON, as
    /// `echo_reply` does with what `authorize` answered. `None` means that the
    /// request is aborted (see `authorize`).
    pub fn api_echo<F: Fn(Vec<u8>) -> ClaimsReading>(
        &self,
        body: &[u8],
        authorization: Option<String>,
        read_claims: F,
    ) -> (r: Option<Result<String, HttpError>>)
        requires
            forall|v: Vec<u8>| call_requires(read_claims, (v,)),
        ensures
            json_decode_bytes(body@) is None ==> (r matches Some(Err(e)) && e.status == 400
                && e.cause is GeneralError),
            json_decode_bytes(body@) matches Some(input) ==> exists|
                auth: Option<Result<AuthUser, HttpError>>,
            | #[trigger] self.echo_outcome(input, authorization, read_claims, auth, r),
    {
        let input = match json_from_slice(body) {
            Ok(s) => s,
            Err(msg) => {
                return Some(Err(HttpError { status: 400, cause: ServiceError::GeneralError(msg) }));
            },
        };
        let ghost hdr = authorization;
        let ghost text = input@;
        let auth = self.authorize(authorization, Some(Role::Writer), read_claims);
        let r = self.echo_reply(input, auth);
        proof {
            assert(self.echo_outcome(text, hdr, read_claims, auth, r));
        }
        r
    }
}

} // verus!
