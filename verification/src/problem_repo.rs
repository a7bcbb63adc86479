use crate::conn_pool::ConnPool;
use crate::model::{
    language_json, language_or_unknown, Language, Problem, ProblemAttachment, ProblemSummary,
};
use vstd::prelude::*;

verus! {

/// A row of the problem table.
pub struct ProblemRecord {
    pub id: String,
    pub title: String,
    pub content: String,
    pub created_at: i64,
    pub updated_at: i64,
    pub writer: String,
}

/// A row of the table that relates problems to their tags.
pub struct ProblemTagRelation {
    pub problem_id: String,
    pub tag: String,
}

/// A row of the table that holds the attachments of problems; the language
/// is held as its JSON text.
pub struct ProblemLanguageRelation {
    pub problem_id: String,
    pub language: String,
    pub version: String,
    pub content: String,
}

/// A problem row joined with the tags of the problem, concatenated.
pub struct JoinedProblemView {
    pub problem: ProblemRecord,
    pub tag: String,
}

/// The problem repository: where the problems are stored.
pub struct ProblemRepository {
    pub db: ConnPool,
}

/// `rec` is the row of the problem `p`.
pub open spec fn record_of(p: Problem, rec: ProblemRecord) -> bool {
    &&& rec.id == p.summary.id
    &&& rec.title == p.summary.title
    &&& rec.content == p.content
    &&& rec.created_at == p.summary.created_at
    &&& rec.updated_at == p.summary.updated_at
    &&& rec.writer == p.summary.writer
}

/// `tags` are the tag rows of the problem `p`, one per tag, in order.
pub open spec fn tag_rows_of(p: Problem, tags: Seq<ProblemTagRelation>) -> bool {
    &&& tags.len() == p.summary.tags@.len()
    &&& forall|i: int|
        0 <= i < tags.len() ==> (#[trigger] tags[i]).problem_id == p.summary.id && tags[i].tag
            == p.summary.tags@[i]
}

/// `langs` are the attachment rows of the problem `p`, one per attachment, in order.
pub open spec fn language_rows_of(p: Problem, langs: Seq<ProblemLanguageRelation>) -> bool {
    &&& langs.len() == p.attachments@.len()
    &&& forall|i: int|
        0 <= i < langs.len() ==> {
            &&& (#[trigger] langs[i]).problem_id == p.summary.id
            &&& langs[i].language@ == language_json(p.attachments@[i].language)
            &&& langs[i].version == p.attachments@[i].version
            &&& langs[i].content == p.attachments@[i].content
        }
}

/// `l` is the language that the language text `text` stands for when it is
/// read with `read_language`: the language read, `Unknown` when it reads none.
pub open spec fn language_read<F: Fn(String) -> Option<Language>>(
    read_language: F,
    text: String,
    l: Language,
) -> bool {
    exists|o: Option<Language>|
        #[trigger] call_ensures(read_language, (text,), o) && l == language_or_unknown(o)
}

/// `p` is the problem of the row `rec`, with the tags `tags` and the
/// attachment rows `atts`, their language texts read with `read_language`.
pub open spec fn problem_of_rows<F: Fn(String) -> Option<Language>>(
    rec: ProblemRecord,
    tags: Seq<String>,
    atts: Seq<ProblemLanguageRelation>,
    read_language: F,
    p: Problem,
) -> bool {
    &&& p.summary.id == rec.id
    &&& p.summary.title == rec.title
    &&& p.summary.created_at == rec.created_at
    &&& p.summary.updated_at == rec.updated_at
    &&& p.summary.writer == rec.writer
    &&& p.summary.tags@ == tags
    &&& p.summary.languages@.len() == atts.len()
    &&& p.attachments@.len() == atts.len()
    &&& forall|i: int|
        0 <= i < atts.len() ==> {
            &&& language_read(read_language, (#[trigger] atts[i]).language, p.summary.languages@[i])
            &&& p.attachments@[i] == (ProblemAttachment {
                language: p.summary.languages@[i],
                version: atts[i].version,
                content: atts[i].content,
            })
        }
    &&& p.content == rec.content
}

/// `s` is the summary of the row `rec` with the tags `tags` and languages `languages`.
pub open spec fn summary_of_row(
    rec: ProblemRecord,
    tags: Seq<String>,
    languages: Seq<Language>,
    s: ProblemSummary,
) -> bool {
    &&& s.id == rec.id
    &&& s.title == rec.title
    &&& s.created_at == rec.created_at
    &&& s.updated_at == rec.updated_at
    &&& s.writer == rec.writer
    &&& s.tags@ == tags
    &&& s.languages@ == languages
}

/// Two problems hold the same data.
pub open spec fn same_problem(a: Problem, b: Problem) -> bool {
    &&& a.summary.id == b.summary.id
    &&& a.summary.title == b.summary.title
    &&& a.summary.created_at == b.summary.created_at
    &&& a.summary.updated_at == b.summary.updated_at
    &&& a.summary.writer == b.summary.writer
    &&& a.summary.tags@ == b.summary.tags@
    &&& a.summary.languages@ == b.summary.languages@
    &&& a.content == b.content
    &&& a.attachments@ == b.attachments@
}

impl ProblemRecord {
    /// Splits a problem into its row, its tag rows and its attachment rows.
    /// The languages of the summary are not stored: they are read back from
    /// the attachments.
    pub fn from_model(data: Problem) -> (r: (
        ProblemRecord,
        Vec<ProblemTagRelation>,
        Vec<ProblemLanguageRelation>,
    ))
        ensures
            record_of(data, r.0),
            tag_rows_of(data, r.1@),
            language_rows_of(data, r.2@),
    {
        let problem_id = data.summary.id.clone();
        let mut tags: Vec<ProblemTagRelation> = Vec::new();
        let mut i: usize = 0;
        while i < data.summary.tags.len()
            invariant
                i <= data.summary.tags@.len(),
                problem_id == data.summary.id,
                tags@.len() == i,
                forall|j: int|
                    0 <= j < i ==> (#[trigger] tags@[j]).problem_id == data.summary.id
                        && tags@[j].tag == data.summary.tags@[j],
            decreases data.summary.tags@.len() - i,
        {
            tags.push(
                ProblemTagRelation { problem_id: problem_id.clone(), tag: data.summary.tags[i].clone() },
            );
            i = i + 1;
        }
        let mut languages: Vec<ProblemLanguageRelation> = Vec::new();
        let mut k: usize = 0;
        while k < data.attachments.len()
            invariant
                k <= data.attachments@.len(),
                problem_id == data.summary.id,
                languages@.len() == k,
                forall|j: int|
                    0 <= j < k ==> {
                        &&& (#[trigger] languages@[j]).problem_id == data.summary.id
                        &&& languages@[j].language@ == language_json(data.attachments@[j].language)
                        &&& languages@[j].version == data.attachments@[j].version
                        &&& languages@[j].content == data.attachments@[j].content
                    },
            decreases data.attachments@.len() - k,
        {
            let attachment = &data.attachments[k];
            languages.push(
                ProblemLanguageRelation {
                    problem_id: problem_id.clone(),
                    language: attachment.language.to_json(),
                    version: attachment.version.clone(),
                    content: attachment.content.clone(),
                },
            );
            k = k + 1;
        }
        let record = ProblemRecord {
            id: data.summary.id,
            title: data.summary.title,
            content: data.content,
            created_at: data.summary.created_at,
            updated_at: data.summary.updated_at,
            writer: data.summary.writer,
        };
        (record, tags, languages)
    }

    /// The problem of a row, with its tags and its attachment rows; the
    /// language text of each attachment row is read with `read_language`, and
    /// a text that it reads as no language gives `Unknown`.
    pub fn to_model<F: Fn(String) -> Option<Language>>(
        self,
        tags: Vec<String>,
        attachments: Vec<ProblemLanguageRelation>,
        read_language: F,
    ) -> (p: Problem)
        requires
            forall|s: String| call_requires(read_language, (s,)),
        ensures
            problem_of_rows(self, tags@, attachments@, read_language, p),
    {
        let ghost rows = attachments@;
        let mut languages: Vec<Language> = Vec::new();
        let mut atts: Vec<ProblemAttachment> = Vec::new();
        for row in it: attachments.into_iter()
            invariant
                it.seq() == rows,
                forall|s: String| call_requires(read_language, (s,)),
                languages@.len() == it.index(),
                atts@.len() == it.index(),
                forall|j: int|
                    0 <= j < it.index() ==> {
                        &&& language_read(read_language, (#[trigger] rows[j]).language, languages@[j])
                        &&& atts@[j] == (ProblemAttachment {
                            language: languages@[j],
                            version: rows[j].version,
                            content: rows[j].content,
                        })
                    },
        {
            let ProblemLanguageRelation { problem_id: _, language: text, version, content } = row;
            let ghost t = text;
            let read = read_language(text);
            let language = match read {
                Some(l) => l,
                None => Language::Unknown,
            };
            proof {
                assert(call_ensures(read_language, (t,), read) && language == language_or_unknown(read));
            }
            languages.push(language);
            atts.push(ProblemAttachment { language, version, content });
        }
        let summary = ProblemSummary {
            id: self.id,
            title: self.title,
            created_at: self.created_at,
            updated_at: self.updated_at,
            writer: self.writer,
            tags,
            languages,
        };
        Problem { summary, content: self.content, attachments: atts }
    }

    /// The summary of a row with the given tags and languages.
    pub fn to_model_summary(self, tags: Vec<String>, languages: Vec<Language>) -> (s:
        ProblemSummary)
        ensures
            summary_of_row(self, tags@, languages@, s),
    {
        ProblemSummary {
            id: self.id,
            title: self.title,
            created_at: self.created_at,
            updated_at: self.updated_at,
            writer: self.writer,
            tags,
            languages,
        }
    }
}

/// Storing a problem and reading it back gives the same problem, provided
/// the languages of its summary are those of its attachments (the summary's
/// list of languages is not stored; it is read back from the attachments) and
/// the language texts are read with a reader that reads the JSON text of each
/// language back as that language.
pub proof fn lemma_stored_problem_reads_back<F: Fn(String) -> Option<Language>>(
    p: Problem,
    rec: ProblemRecord,
    tags: Seq<ProblemTagRelation>,
    langs: Seq<ProblemLanguageRelation>,
    read_language: F,
    back: Problem,
)
    requires
        p.summary.languages@.len() == p.attachments@.len(),
        forall|i: int|
            0 <= i < p.attachments@.len() ==> p.summary.languages@[i] == (
            #[trigger] p.attachments@[i]).language,
        forall|s: String, l: Language, o: Option<Language>|
            #![trigger call_ensures(read_language, (s,), o), language_json(l)]
            s@ == language_json(l) && call_ensures(read_language, (s,), o) ==> o == Some(l),
        record_of(p, rec),
        tag_rows_of(p, tags),
        language_rows_of(p, langs),
        problem_of_rows(rec, tags.map_values(|t: ProblemTagRelation| t.tag), langs, read_language, back),
    ensures
        same_problem(back, p),
{
    assert(back.summary.tags@ =~= p.summary.tags@);
    assert forall|i: int| 0 <= i < p.summary.languages@.len() implies #[trigger] back.summary.languages@[i]
        == p.summary.languages@[i] && back.attachments@[i] == p.attachments@[i] by {
        assert(langs[i].language@ == language_json(p.attachments@[i].language));
        assert(language_read(read_language, langs[i].language, back.summary.languages@[i]));
        let o = choose|o: Option<Language>|
            #[trigger] call_ensures(read_language, (langs[i].language,), o)
                && back.summary.languages@[i] == language_or_unknown(o);
        assert(o == Some(p.attachments@[i].language));
    }
    assert(back.summary.languages@ =~= p.summary.languages@);
    assert forall|i: int| 0 <= i < p.attachments@.len() implies #[trigger] back.attachments@[i]
        == p.attachments@[i] by {
        assert(back.summary.languages@[i] == p.summary.languages@[i]);
    }
    assert(back.attachments@ =~= p.attachments@);
}

impl JoinedProblemView {
    /// The summary of a joined row: its concatenated tags as the one tag, no languages.
    pub fn into_summary(self) -> (s: ProblemSummary)
        ensures
            summary_of_row(self.problem, seq![self.tag], Seq::empty(), s),
    {
        let mut tags: Vec<String> = Vec::new();
        tags.push(self.tag);
        let languages: Vec<Language> = Vec::new();
        proof {
            assert(tags@ =~= seq![self.tag]);
        }
        self.problem.to_model_summary(tags, languages)
    }
}

impl ProblemRepository {
    /// A repository over the database of `db`.
    pub fn new(db: ConnPool) -> (r: ProblemRepository)
        ensures
            r.db == db,
    {
        ProblemRepository { db }
    }

    /// The summaries of the joined rows of the problem list, in order.
    pub fn summaries(views: Vec<JoinedProblemView>) -> (r: Vec<ProblemSummary>)
        ensures
            r@.len() == views@.len(),
            forall|i: int|
                0 <= i < views@.len() ==> summary_of_row(
                    (#[trigger] views@[i]).problem,
                    seq![views@[i].tag],
                    Seq::empty(),
                    r@[i],
                ),
    {
        let ghost all = views@;
        let mut out: Vec<ProblemSummary> = Vec::new();
        for v in it: views.into_iter()
            invariant
                it.seq() == all,
                out@.len() == it.index(),
                forall|j: int|
                    0 <= j < out@.len() ==> summary_of_row(
                        all[j].problem,
                        seq![all[j].tag],
                        Seq::empty(),
                        #[trigger] out@[j],
                    ),
        {
            out.push(v.into_summary());
        }
        out
    }

    /// Problems by tag: none are found.
    pub fn list_by_tag(&self, tag: String) -> (r: Vec<ProblemSummary>)
        ensures
            r@.len() == 0,
    {
        Vec::new()
    }

    /// The condition that selects the problem with the identifier `key`.
    pub fn find_by_id_condition(key: &str) -> (r: String)
        ensures
            r@ == "id = "@ + key@,
    {
        let mut cond = String::from_str("id = ");
        cond.append(key);
        cond
    }
}

} // verus!
