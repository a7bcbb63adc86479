use provenian::conn_pool::ConnPool;
use provenian::web::WebContext;
use provenian::initializer::{AppContext, Config, Infras, Serviceclients, Services};
use provenian::jwt_handler::JsonWebKeySet;
use provenian::model::{Language, Problem, ProblemAttachment, ProblemSummary};
use provenian::problem_repo::{JoinedProblemView, ProblemLanguageRelation, ProblemRecord, ProblemRepository};
use provenian::service::{EchoService, ProblemCreateInput, ProblemService};
use provenian::wrapper::server::{internal_path, not_found_status};
use std::sync::Arc;

/// Reads a language text as the service does for the texts it writes: the
/// JSON string of a language name.
fn read_language(text: String) -> Option<Language> {
    match text.as_str() {
        "\"isabelle\"" => Some(Language::Isabelle),
        "\"unknown\"" => Some(Language::Unknown),
        _ => None,
    }
}

fn sample() -> Problem {
    Problem {
        summary: ProblemSummary {
            id: "P1".to_string(),
            title: "Addition".to_string(),
            created_at: 10,
            updated_at: 20,
            writer: "alice".to_string(),
            tags: vec!["arith".to_string(), "easy".to_string()],
            languages: vec![Language::Isabelle, Language::Unknown],
        },
        content: "prove 1 + 1 = 2".to_string(),
        attachments: vec![
            ProblemAttachment { language: Language::Isabelle, version: "2019".to_string(), content: "theory A".to_string() },
            ProblemAttachment { language: Language::Unknown, version: "".to_string(), content: "x".to_string() },
        ],
    }
}

fn record() -> ProblemRecord {
    ProblemRecord {
        id: "P9".to_string(),
        title: "T".to_string(),
        content: "C".to_string(),
        created_at: 1,
        updated_at: 2,
        writer: "w".to_string(),
    }
}

#[test]
fn from_model_splits_problem() {
    let (rec, tags, langs) = ProblemRecord::from_model(sample());
    assert_eq!(rec.id, "P1");
    assert_eq!(rec.title, "Addition");
    assert_eq!(rec.content, "prove 1 + 1 = 2");
    assert_eq!((rec.created_at, rec.updated_at), (10, 20));
    assert_eq!(rec.writer, "alice");
    assert_eq!(tags.len(), 2);
    assert!(tags.iter().all(|t| t.problem_id == "P1"));
    assert_eq!(tags[0].tag, "arith");
    assert_eq!(tags[1].tag, "easy");
    assert_eq!(langs.len(), 2);
    assert_eq!(langs[0].language, "\"isabelle\"");
    assert_eq!(langs[0].version, "2019");
    assert_eq!(langs[0].content, "theory A");
    assert_eq!(langs[1].language, "\"unknown\"");
    assert!(langs.iter().all(|l| l.problem_id == "P1"));
}

#[test]
fn stored_problem_reads_back() {
    let p = sample();
    let (rec, tags, langs) = ProblemRecord::from_model(sample());
    let back = rec.to_model(tags.into_iter().map(|t| t.tag).collect(), langs, read_language);
    assert_eq!(back.summary.id, p.summary.id);
    assert_eq!(back.summary.title, p.summary.title);
    assert_eq!(back.summary.tags, p.summary.tags);
    assert_eq!(back.summary.languages, p.summary.languages);
    assert_eq!(back.content, p.content);
    assert_eq!(back.attachments.len(), 2);
    assert_eq!(back.attachments[0].language, Language::Isabelle);
    assert_eq!(back.attachments[0].version, "2019");
    assert_eq!(back.attachments[1].content, "x");
}

#[test]
fn to_model_reads_unknown_language_text() {
    let rows = vec![
        ProblemLanguageRelation { problem_id: "P9".to_string(), language: "\"lean\"".to_string(), version: "4".to_string(), content: "c".to_string() },
        ProblemLanguageRelation { problem_id: "P9".to_string(), language: "garbage".to_string(), version: "".to_string(), content: "".to_string() },
    ];
    let p = record().to_model(vec![], rows, read_language);
    assert_eq!(p.summary.languages, vec![Language::Unknown, Language::Unknown]);
    assert_eq!(p.attachments[0].version, "4");
    assert_eq!(p.summary.id, "P9");
    assert_eq!(p.content, "C");
}

#[test]
fn to_model_uses_the_given_reader() {
    let rows = vec![
        ProblemLanguageRelation { problem_id: "P9".to_string(), language: "A".to_string(), version: "1".to_string(), content: "a".to_string() },
        ProblemLanguageRelation { problem_id: "P9".to_string(), language: "B".to_string(), version: "2".to_string(), content: "b".to_string() },
    ];
    let p = record().to_model(vec![], rows, |t: String| if t == "A" { Some(Language::Isabelle) } else { None });
    assert_eq!(p.summary.languages, vec![Language::Isabelle, Language::Unknown]);
    assert_eq!(p.attachments[0].language, Language::Isabelle);
    assert_eq!(p.attachments[1].language, Language::Unknown);
    assert_eq!(p.attachments[1].content, "b");
}

#[test]
fn to_model_summary_keeps_row() {
    let s = record().to_model_summary(vec!["t".to_string()], vec![Language::Isabelle]);
    assert_eq!(s.id, "P9");
    assert_eq!(s.title, "T");
    assert_eq!((s.created_at, s.updated_at), (1, 2));
    assert_eq!(s.writer, "w");
    assert_eq!(s.tags, vec!["t".to_string()]);
    assert_eq!(s.languages, vec![Language::Isabelle]);
}

#[test]
fn joined_rows_become_summaries_in_order() {
    let mut second = record();
    second.id = "P10".to_string();
    let views = vec![
        JoinedProblemView { problem: record(), tag: "a,b".to_string() },
        JoinedProblemView { problem: second, tag: "c".to_string() },
    ];
    let out = ProblemRepository::summaries(views);
    assert_eq!(out.len(), 2);
    assert_eq!(out[0].id, "P9");
    assert_eq!(out[0].tags, vec!["a,b".to_string()]);
    assert!(out[0].languages.is_empty());
    assert_eq!(out[1].id, "P10");
    assert_eq!(out[1].tags, vec!["c".to_string()]);
    assert!(ProblemRepository::summaries(vec![]).is_empty());
}

#[test]
fn database_urls_are_checked() {
    assert!(ConnPool::try_from_url("mysql://h/db").is_some());
    assert_eq!(ConnPool::try_from_url("mysql://user:pw@h:3307/db").unwrap().database_url, "mysql://user:pw@h:3307/db");
    assert!(ConnPool::try_from_url("not a url").is_none());
    assert!(ConnPool::try_from_url("").is_none());
    let bad = Config { database_url: "::".to_string(), jwk_url: "http://keys".to_string() };
    assert!(WebContext::try_new(bad, JsonWebKeySet { keys: vec![] }).is_none());
    let good = WebContext::try_new(config(), JsonWebKeySet { keys: vec![] }).unwrap();
    assert_eq!(good.app.infras.db_pool.database_url, "mysql://db");
}

#[test]
fn repository_queries() {
    let repo = ProblemRepository::new(ConnPool::from_url("mysql://h/db"));
    assert_eq!(repo.db.database_url, "mysql://h/db");
    assert!(repo.list_by_tag("x".to_string()).is_empty());
    assert_eq!(ProblemRepository::find_by_id_condition("P1"), "id = P1");
    assert_eq!(ProblemRepository::find_by_id_condition(""), "id = ");
}

#[test]
fn echo_gives_payload() {
    assert_eq!(EchoService::new().echo("hi".to_string()).unwrap(), "hi");
}

#[test]
fn create_builds_new_problem() {
    let repo = Arc::new(ProblemRepository::new(ConnPool::from_url("mysql://localhost/u")));
    let s = ProblemService::new(repo);
    let p = s.create(ProblemCreateInput { title: "t".to_string(), content: "c".to_string(), writer: "w".to_string() });
    assert_eq!(p.summary.title, "t");
    assert_eq!(p.content, "c");
    assert_eq!(p.summary.writer, "w");
    assert!(p.attachments.is_empty());
    assert_eq!(p.summary.id.len(), 26);
}

fn config() -> Config {
    Config { database_url: "mysql://db".to_string(), jwk_url: "http://keys".to_string() }
}

#[test]
fn app_context_shares_parts() {
    let c = AppContext::new(config(), JsonWebKeySet { keys: vec![] });
    assert_eq!(c.infras.db_pool.database_url, "mysql://db");
    assert_eq!(c.infras.jwt_handler.issuer, "example.com");
    assert!(Arc::ptr_eq(&c.services.auth_service.jwt_handler, &c.infras.jwt_handler));
    assert!(Arc::ptr_eq(&c.services.problem_service.problem_repo, &c.serviceclient.problem_repo));
    assert_eq!(c.serviceclient.problem_repo.db.database_url, "mysql://db");
}

#[test]
fn layers_are_built_from_each_other() {
    let infras = Infras::new(config(), JsonWebKeySet { keys: vec![] });
    let clients = Serviceclients::new(infras.clone());
    assert_eq!(clients.problem_repo.db.database_url, "mysql://db");
    let services = Services::new(infras.clone(), clients.clone());
    assert!(Arc::ptr_eq(&services.auth_service.jwt_handler, &infras.jwt_handler));
    let copy = services.clone();
    assert!(Arc::ptr_eq(&copy.problem_service.problem_repo, &clients.problem_repo));
}

#[test]
fn route_keys() {
    assert_eq!(internal_path("GET", "/problems"), "/GET//problems");
    assert_eq!(internal_path("POST", "problems"), "/POST/problems");
    assert_ne!(internal_path("GET", "x"), internal_path("POST", "x"));
    assert_eq!(not_found_status(), 405);
}
