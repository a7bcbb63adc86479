use provenian::model::{Language, Problem, ProblemSummary, Role};

#[test]
fn writer_is_below_user() {
    assert!(Role::Writer.less_than(&Role::User));
    assert!(!Role::User.less_than(&Role::Writer));
    assert!(!Role::Writer.less_than(&Role::Writer));
    assert!(!Role::User.less_than(&Role::User));
}

#[test]
fn language_json_text() {
    assert_eq!(Language::Isabelle.to_json(), "\"isabelle\"");
    assert_eq!(Language::Unknown.to_json(), "\"unknown\"");
}

#[test]
fn stamped_summary_keeps_its_parts() {
    let s = ProblemSummary::stamped(
        "01ARZ3NDEKTSV4RRFFQ69G5FAV".to_string(),
        1_500_000_000,
        "title".to_string(),
        "alice".to_string(),
        vec!["logic".to_string()],
        vec![Language::Isabelle],
    );
    assert_eq!(s.id, "01ARZ3NDEKTSV4RRFFQ69G5FAV");
    assert_eq!(s.created_at, 1_500_000_000);
    assert_eq!(s.updated_at, 1_500_000_000);
    assert_eq!(s.title, "title");
    assert_eq!(s.writer, "alice");
    assert_eq!(s.tags, vec!["logic".to_string()]);
    assert_eq!(s.languages, vec![Language::Isabelle]);
}

fn is_crockford(c: char) -> bool {
    "0123456789ABCDEFGHJKMNPQRSTVWXYZ".contains(c)
}

#[test]
fn new_summary_has_ulid_and_one_time() {
    let a = ProblemSummary::new("t".to_string(), "w".to_string(), vec![], vec![Language::Unknown]);
    let b = ProblemSummary::new("t".to_string(), "w".to_string(), vec![], vec![]);
    assert_eq!(a.id.chars().count(), 26);
    assert!(a.id.chars().all(is_crockford));
    assert_ne!(a.id, b.id);
    assert_eq!(a.created_at, a.updated_at);
    assert!(a.created_at > 1_500_000_000);
    assert_eq!(a.languages, vec![Language::Unknown]);
}

#[test]
fn new_problem_is_empty() {
    let p = Problem::new("t".to_string(), "statement".to_string(), "w".to_string());
    assert_eq!(p.summary.title, "t");
    assert_eq!(p.summary.writer, "w");
    assert_eq!(p.content, "statement");
    assert!(p.summary.tags.is_empty());
    assert!(p.summary.languages.is_empty());
    assert!(p.attachments.is_empty());
    assert_eq!(p.summary.id.len(), 26);
}
