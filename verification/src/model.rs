use vstd::prelude::*;

verus! {

/// The role a user holds; roles are ordered `Writer < User`.
#[derive(Clone, Copy, PartialEq, Eq, Structural, Debug)]
pub enum Role {
    Writer,
    User,
}

/// The position of a role in the declared order of the variants.
pub open spec fn role_rank(r: Role) -> int {
    match r {
        Role::Writer => 0,
        Role::User => 1,
    }
}

impl Role {
    /// `self < other` in the order of declaration of the variants.
    pub fn less_than(&self, other: &Role) -> (r: bool)
        ensures
            r == (role_rank(*self) < role_rank(*other)),
    {
        match (self, other) {
            (Role::Writer, Role::User) => true,
            _ => false,
        }
    }
}

/// The language of a problem attachment.
#[derive(Clone, Copy, PartialEq, Eq, Structural, Debug, Hash)]
pub enum Language {
    Isabelle,
    Unknown,
}

/// The name of a language as it is written in JSON (snake case).
pub open spec fn language_name(l: Language) -> Seq<char> {
    match l {
        Language::Isabelle => "isabelle"@,
        Language::Unknown => "unknown"@,
    }
}

/// The JSON text of a language: its name between double quotes.
pub open spec fn language_json(l: Language) -> Seq<char> {
    seq!['"'] + language_name(l) + seq!['"']
}

/// The language that reading a language text gave: the language read, or
/// `Unknown` when the text names none.
pub open spec fn language_or_unknown(read: Option<Language>) -> Language {
    match read {
        Some(l) => l,
        None => Language::Unknown,
    }
}

impl Language {
    /// The JSON text of the language, as serde writes it.
    pub fn to_json(&self) -> (r: String)
        ensures
            r@ == language_json(*self),
    {
        let r = match self {
            Language::Isabelle => String::from_str("\"isabelle\""),
            Language::Unknown => String::from_str("\"unknown\""),
        };
        proof {
            reveal_strlit("\"isabelle\"");
            reveal_strlit("\"unknown\"");
            reveal_strlit("isabelle");
            reveal_strlit("unknown");
            assert(r@ =~= language_json(*self));
        }
        r
    }
}

/// The authenticated user, with the roles that the token grants.
#[derive(Clone, Debug)]
pub struct AuthUser {
    pub role: Vec<Role>,
}

/// A file attached to a problem, written in some language.
#[derive(Clone, Debug)]
pub struct ProblemAttachment {
    pub language: Language,
    pub version: String,
    pub content: String,
}

/// The summary of a problem: everything but its statement and attachments.
#[derive(Clone, Debug)]
pub struct ProblemSummary {
    pub id: String,
    pub title: String,
    pub created_at: i64,
    pub updated_at: i64,
    pub writer: String,
    pub tags: Vec<String>,
    pub languages: Vec<Language>,
}

/// A character of the Crockford base32 alphabet in which identifiers are written.
pub open spec fn crockford_char(c: char) -> bool {
    ('0' <= c <= '9') || ('A' <= c <= 'Z' && c != 'I' && c != 'L' && c != 'O' && c != 'U')
}

/// A ULID in text: 26 characters of the Crockford base32 alphabet.
pub open spec fn ulid_text(s: Seq<char>) -> bool {
    s.len() == 26 && forall|i: int| 0 <= i < s.len() ==> crockford_char(#[trigger] s[i])
}

#[verifier::external_type_specification]
#[verifier::external_body]
pub struct ExUlid(ulid::Ulid);

#[verifier::external_type_specification]
#[verifier::external_body]
pub struct ExTm(time::Tm);

/// A fresh ULID from `ulid::Ulid::generate` (the time and random bits).
/// Trusted for nothing: its value depends on the clock and chance.
#[verifier::external_body]
fn ulid_generate() -> ulid::Ulid {
    ulid::Ulid::generate()
}

/// `ulid::Ulid::to_string`. Trusted: every ULID is written as 26 characters of
/// the Crockford base32 alphabet.
#[verifier::external_body]
fn ulid_to_string(id: &ulid::Ulid) -> (r: String)
    ensures
        ulid_text(r@),
{
    id.to_string()
}

/// The local time from `time::now`. Trusted for nothing: it reads the clock.
#[verifier::external_body]
fn time_now() -> time::Tm {
    time::now()
}

/// The seconds since the Unix epoch of a time, `Tm::to_timespec().sec`.
/// Trusted for nothing beyond its type: the value is a function of the opaque `Tm`.
#[verifier::external_body]
fn tm_unix_seconds(t: &time::Tm) -> i64 {
    t.to_timespec().sec
}

/// Calls `f` once, with no argument.
fn call_once<T, F: Fn() -> T>(f: F) -> (r: T)
    requires
        call_requires(f, ()),
    ensures
        call_ensures(f, (), r),
{
    f()
}

/// Calls `f` once, on `a`.
fn call_on<A, T, F: Fn(A) -> T>(f: F, a: A) -> (r: T)
    requires
        call_requires(f, (a,)),
    ensures
        call_ensures(f, (a,), r),
{
    f(a)
}

/// `t` is a reading of the clock: the Unix seconds of a time that `time::now`
/// can give.
pub closed spec fn clock_seconds(t: i64) -> bool {
    exists|tm: time::Tm|
        #[trigger] call_ensures(time_now, (), tm) && call_ensures(tm_unix_seconds, (&tm,), t)
}

/// `id` is the text of a freshly generated ULID: what `Ulid::to_string`
/// gives for a ULID that `Ulid::generate` can give.
pub closed spec fn fresh_ulid_text(id: String) -> bool {
    exists|u: ulid::Ulid|
        #[trigger] call_ensures(ulid_generate, (), u) && call_ensures(ulid_to_string, (&u,), id)
}

/// A freshly generated ULID, as text.
fn fresh_ulid() -> (id: String)
    ensures
        fresh_ulid_text(id),
        ulid_text(id@),
{
    let u = call_once(ulid_generate);
    let id = call_on(ulid_to_string, &u);
    proof {
        assert(call_ensures(ulid_generate, (), u) && call_ensures(ulid_to_string, (&u,), id));
    }
    id
}

/// Reads the clock: the Unix seconds of the current local time.
fn now_seconds() -> (t: i64)
    ensures
        clock_seconds(t),
{
    let tm = call_once(time_now);
    let t = call_on(tm_unix_seconds, &tm);
    proof {
        assert(call_ensures(time_now, (), tm) && call_ensures(tm_unix_seconds, (&tm,), t));
    }
    t
}

/// `s` is a summary of a new problem with the given parts: a ULID as its
/// identifier, and created and updated at one reading of the clock.
pub open spec fn is_new_summary(
    s: ProblemSummary,
    title: String,
    writer: String,
    tags: Vec<String>,
    languages: Vec<Language>,
) -> bool {
    &&& ulid_text(s.id@)
    &&& fresh_ulid_text(s.id)
    &&& s.title == title
    &&& s.created_at == s.updated_at
    &&& clock_seconds(s.created_at)
    &&& s.writer == writer
    &&& s.tags == tags
    &&& s.languages == languages
}

/// A new summary is created and updated at the same instant, and that
/// instant is a reading of the clock (the Unix seconds of a time that
/// `time::now` gave), not a time chosen otherwise.
pub proof fn law_new_summary_is_stamped_by_the_clock(
    s: ProblemSummary,
    title: String,
    writer: String,
    tags: Vec<String>,
    languages: Vec<Language>,
)
    requires
        is_new_summary(s, title, writer, tags, languages),
    ensures
        s.created_at == s.updated_at,
        clock_seconds(s.created_at),
        clock_seconds(s.updated_at),
        fresh_ulid_text(s.id),
        s.title == title && s.writer == writer && s.tags == tags && s.languages == languages,
{
}

impl ProblemSummary {
    /// The summary of a new problem with the given identifier, created at `now`.
    pub fn stamped(
        id: String,
        now: i64,
        title: String,
        writer: String,
        tags: Vec<String>,
        languages: Vec<Language>,
    ) -> (s: ProblemSummary)
        ensures
            s.id == id,
            s.title == title,
            s.created_at == now,
            s.updated_at == now,
            s.writer == writer,
            s.tags == tags,
            s.languages == languages,
    {
        ProblemSummary { id, title, created_at: now, updated_at: now, writer, tags, languages }
    }

    /// The summary of a new problem: a fresh ULID as identifier, created and
    /// updated now.
    pub fn new(title: String, writer: String, tags: Vec<String>, languages: Vec<Language>) -> (s:
        ProblemSummary)
        ensures
            ulid_text(s.id@),
            s.title == title,
            s.created_at == s.updated_at,
            clock_seconds(s.created_at),
            s.writer == writer,
            s.tags == tags,
            s.languages == languages,
            is_new_summary(s, title, writer, tags, languages),
            fresh_ulid_text(s.id),
    {
        let now = now_seconds();
        let id = fresh_ulid();
        ProblemSummary::stamped(id, now, title, writer, tags, languages)
    }
}

/// A problem: its summary, its statement and its attachments.
#[derive(Clone, Debug)]
pub struct Problem {
    pub summary: ProblemSummary,
    pub content: String,
    pub attachments: Vec<ProblemAttachment>,
}

impl Problem {
    /// A new problem with no tags, languages or attachments.
    pub fn new(title: String, content: String, writer: String) -> (p: Problem)
        ensures
            ulid_text(p.summary.id@),
            p.summary.title == title,
            p.summary.created_at == p.summary.updated_at,
            clock_seconds(p.summary.created_at),
            fresh_ulid_text(p.summary.id),
            p.summary.writer == writer,
            p.summary.tags@.len() == 0,
            p.summary.languages@.len() == 0,
            p.content == content,
            p.attachments@.len() == 0,
    {
        Problem {
            summary: ProblemSummary::new(title, writer, Vec::new(), Vec::new()),
            content,
            attachments: Vec::new(),
        }
    }
}

} // verus!
