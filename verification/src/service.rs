use crate::error::ServiceError;
use crate::jwt_handler::{ClaimsReading, IJWTHandler, JWTHandler};
use chrono::NaiveDateTime;
use crate::model::{clock_seconds, fresh_ulid_text, ulid_text, AuthUser, Problem};
use crate::problem_repo::ProblemRepository;
use std::sync::Arc;
use vstd::prelude::*;

verus! {

/// Answers a payload with itself.
pub struct EchoService {}

impl EchoService {
    pub fn new() -> (s: EchoService) {
        EchoService {  }
    }

    /// The payload, unchanged.
    pub fn echo(&self, payload: String) -> (r: Result<String, ServiceError>)
        ensures
            r matches Ok(p) && p == payload,
    {
        Ok(payload)
    }
}

/// Authorizes users by their tokens.
pub struct AuthService {
    pub jwt_handler: Arc<JWTHandler>,
}

impl AuthService {
    pub fn new(jwt_handler: Arc<JWTHandler>) -> (s: AuthService)
        ensures
            s.jwt_handler == jwt_handler,
    {
        AuthService { jwt_handler }
    }

    /// The user of a token, as the token handler verifies it at the time
    /// that the clock gives, reading the claims with `read_claims`: the
    /// outcome of `verify` on the token, handed on.
    pub fn authorize<F: Fn(Vec<u8>) -> ClaimsReading>(&self, token: &str, read_claims: F) -> (r:
        Result<AuthUser, ServiceError>)
        requires
            self.jwt_handler.can_verify(token@),
            forall|v: Vec<u8>| call_requires(read_claims, (v,)),
        ensures
            exists|now: NaiveDateTime| self.jwt_handler.verify_result_at(token@, now, read_claims, r),
    {
        IJWTHandler::<AuthUser>::verify(&*self.jwt_handler, token, read_claims)
    }
}

/// What a client sends to create a problem.
pub struct ProblemCreateInput {
    pub title: String,
    pub content: String,
    pub writer: String,
}

/// Lists and creates problems.
pub struct ProblemService {
    pub problem_repo: Arc<ProblemRepository>,
}

impl ProblemService {
    pub fn new(problem_repo: Arc<ProblemRepository>) -> (s: ProblemService)
        ensures
            s.problem_repo == problem_repo,
    {
        ProblemService { problem_repo }
    }

    /// The problem that creating from `input` stores in the repository: a new
    /// problem with the title, statement and writer of the input.
    pub fn create(&self, input: ProblemCreateInput) -> (p: Problem)
        ensures
            ulid_text(p.summary.id@),
            p.summary.title == input.title,
            p.content == input.content,
            p.summary.writer == input.writer,
            p.summary.created_at == p.summary.updated_at,
            clock_seconds(p.summary.created_at),
            fresh_ulid_text(p.summary.id),
            p.summary.tags@.len() == 0,
            p.summary.languages@.len() == 0,
            p.attachments@.len() == 0,
    {
        Problem::new(input.title, input.content, input.writer)
    }
}

} // verus!
