use vstd::prelude::*;

use crate::error::Error;
use crate::header::texts;

verus! {

/// The most search terms one job takes; later ones are dropped.
pub const SEARCH_TERM_LIMIT: usize = 5;

/// What was read of a form field's content.
#[derive(Debug, Clone)]
pub enum FieldBody {
    /// The content was not read.
    Unread,
    /// The content, read as text.
    Text(String),
    /// The content, read as bytes.
    Bytes(Vec<u8>),
}

/// One field of a job form: its name, if it has one, and its content.
#[derive(Debug, Clone)]
pub struct Field {
    pub name: Option<String>,
    pub body: FieldBody,
}

/// How much of a field's content the parser needs.
#[derive(Debug, Clone, Copy, PartialEq, Eq)]
pub enum FieldRead {
    Skip,
    Text,
    Bytes,
}

/// A job configuration as a mathematical value; `file_id` is `None`
/// until a `fileId` field has been seen.
pub struct JobModel {
    pub file_id: Option<Seq<char>>,
    pub contraction_file: Option<Seq<u8>>,
    pub search_terms: Seq<Seq<char>>,
    pub check_date: bool,
}

pub open spec fn file_id_name() -> Seq<char> {
    "fileId"@
}

pub open spec fn contraction_name() -> Seq<char> {
    "contractionFile"@
}

pub open spec fn search_terms_name() -> Seq<char> {
    "searchTerms"@
}

pub open spec fn check_date_name() -> Seq<char> {
    "checkDate"@
}

pub open spec fn missing_file_id_message() -> Seq<char> {
    "fileId not present in formdata"@
}

pub open spec fn empty_file_id_message() -> Seq<char> {
    "fileId is empty in formdata"@
}

/// Whether a configuration in state `m` may be built: it has a file id,
/// and that id is not empty.
pub open spec fn has_usable_file_id(m: JobModel) -> bool {
    m.file_id matches Some(id) && id.len() > 0
}

/// Whether field `f` is named `n`.
pub open spec fn named(f: Field, n: Seq<char>) -> bool {
    f.name matches Some(x) && x@ == n
}

/// The text content of a field; empty when it was not read as text.
pub open spec fn body_text(f: Field) -> Seq<char> {
    match f.body {
        FieldBody::Text(t) => t@,
        _ => Seq::empty(),
    }
}

/// The byte content of a field; empty when it was not read as bytes.
pub open spec fn body_bytes(f: Field) -> Seq<u8> {
    match f.body {
        FieldBody::Bytes(b) => b@,
        _ => Seq::empty(),
    }
}

/// The configuration before any field is seen.
pub open spec fn initial_job() -> JobModel {
    JobModel { file_id: None, contraction_file: None, search_terms: Seq::empty(), check_date: false }
}

/// The configuration after field `f` is seen. The first `fileId` gives the
/// file id (its text; the field's name would carry no information), each
/// `contractionFile` replaces the contraction payload, a `searchTerms` is
/// kept while fewer than the limit are held, a `checkDate` sets the flag,
/// and any other field changes nothing.
pub open spec fn step(m: JobModel, f: Field) -> JobModel {
    if named(f, file_id_name()) {
        if m.file_id is None {
            JobModel { file_id: Some(body_text(f)), ..m }
        } else {
            m
        }
    } else if named(f, contraction_name()) {
        JobModel { contraction_file: Some(body_bytes(f)), ..m }
    } else if named(f, search_terms_name()) {
        if m.search_terms.len() < SEARCH_TERM_LIMIT {
            JobModel { search_terms: m.search_terms.push(body_text(f)), ..m }
        } else {
            m
        }
    } else if named(f, check_date_name()) {
        JobModel { check_date: true, ..m }
    } else {
        m
    }
}

/// The configuration after the fields `fs`, seen in order.
pub open spec fn job_of(fs: Seq<Field>) -> JobModel
    decreases fs.len(),
{
    if fs.len() == 0 {
        initial_job()
    } else {
        step(job_of(fs.drop_last()), fs.last())
    }
}

/// What the parser needs of the content of a field named `name`, in
/// state `m`.
pub open spec fn read_for(m: JobModel, name: Option<String>) -> FieldRead {
    let f = Field { name, body: FieldBody::Unread };
    if named(f, file_id_name()) && m.file_id is None {
        FieldRead::Text
    } else if named(f, contraction_name()) {
        FieldRead::Bytes
    } else if named(f, search_terms_name()) && m.search_terms.len() < SEARCH_TERM_LIMIT {
        FieldRead::Text
    } else {
        FieldRead::Skip
    }
}


/// The texts of the `searchTerms` fields of `fs`, in order.
pub open spec fn search_texts(fs: Seq<Field>) -> Seq<Seq<char>>
    decreases fs.len(),
{
    if fs.len() == 0 {
        Seq::empty()
    } else if named(fs.last(), search_terms_name()) {
        search_texts(fs.drop_last()).push(body_text(fs.last()))
    } else {
        search_texts(fs.drop_last())
    }
}

/// The four field names the parser knows are distinct.
proof fn lemma_names_distinct()
    ensures
        file_id_name() != contraction_name(),
        file_id_name() != search_terms_name(),
        file_id_name() != check_date_name(),
        contraction_name() != search_terms_name(),
        contraction_name() != check_date_name(),
        search_terms_name() != check_date_name(),
{
    reveal_strlit("fileId");
    reveal_strlit("contractionFile");
    reveal_strlit("searchTerms");
    reveal_strlit("checkDate");
    assert(file_id_name().len() != contraction_name().len());
    assert(file_id_name().len() != search_terms_name().len());
}

/// Whether some field of `fs` is named `n`.
pub open spec fn has_field(fs: Seq<Field>, n: Seq<char>) -> bool {
    exists|i: int| 0 <= i < fs.len() && #[trigger] named(fs[i], n)
}

/// A job keeps the search terms of its form in the order they came, up
/// to the limit; every later one is dropped.
pub proof fn lemma_search_terms_bounded(fs: Seq<Field>)
    ensures
        job_of(fs).search_terms == search_texts(fs).take(
            if search_texts(fs).len() < SEARCH_TERM_LIMIT {
                search_texts(fs).len() as int
            } else {
                SEARCH_TERM_LIMIT as int
            },
        ),
    decreases fs.len(),
{
    if fs.len() > 0 {
        let p = fs.drop_last();
        lemma_search_terms_bounded(p);
        lemma_names_distinct();
        let t = search_texts(p);
        if t.len() < SEARCH_TERM_LIMIT {
            assert(job_of(p).search_terms.len() == t.len());
        } else {
            assert(job_of(p).search_terms.len() == SEARCH_TERM_LIMIT);
        }
        if named(fs.last(), search_terms_name()) && t.len() >= SEARCH_TERM_LIMIT {
            assert(t.push(body_text(fs.last())).take(SEARCH_TERM_LIMIT as int) =~= t.take(
                SEARCH_TERM_LIMIT as int,
            ));
        }
        assert(job_of(fs).search_terms =~= search_texts(fs).take(
            if search_texts(fs).len() < SEARCH_TERM_LIMIT {
                search_texts(fs).len() as int
            } else {
                SEARCH_TERM_LIMIT as int
            },
        ));
    } else {
        assert(search_texts(fs).take(0) =~= Seq::<Seq<char>>::empty());
    }
}

/// A job's date check is on exactly when its form has a `checkDate`
/// field, whatever that field holds.
pub proof fn lemma_check_date_is_presence(fs: Seq<Field>)
    ensures
        job_of(fs).check_date == has_field(fs, check_date_name()),
    decreases fs.len(),
{
    if fs.len() > 0 {
        let p = fs.drop_last();
        lemma_check_date_is_presence(p);
        lemma_names_distinct();
        if has_field(p, check_date_name()) {
            let i = choose|i: int| 0 <= i < p.len() && #[trigger] named(p[i], check_date_name());
            assert(named(fs[i], check_date_name()));
        }
        if named(fs.last(), check_date_name()) {
            assert(named(fs[fs.len() - 1], check_date_name()));
        }
        if has_field(fs, check_date_name()) && !named(fs.last(), check_date_name()) {
            let i = choose|i: int| 0 <= i < fs.len() && #[trigger] named(fs[i], check_date_name());
            assert(i < fs.len() - 1);
            assert(named(p[i], check_date_name()));
        }
    }
}

/// A job has a file id exactly when its form has a `fileId` field, and
/// then it is the text of the first such field.
pub proof fn lemma_file_id_required(fs: Seq<Field>)
    ensures
        job_of(fs).file_id is None <==> !has_field(fs, file_id_name()),
        job_of(fs).file_id is Some ==> exists|i: int|
            0 <= i < fs.len() && #[trigger] named(fs[i], file_id_name())
                && job_of(fs).file_id == Some(body_text(fs[i])) && forall|j: int|
                0 <= j < i ==> !named(#[trigger] fs[j], file_id_name()),
    decreases fs.len(),
{
    if fs.len() > 0 {
        let p = fs.drop_last();
        lemma_file_id_required(p);
        lemma_names_distinct();
        if has_field(p, file_id_name()) {
            let i = choose|i: int| 0 <= i < p.len() && #[trigger] named(p[i], file_id_name());
            assert(named(fs[i], file_id_name()));
        }
        if named(fs.last(), file_id_name()) {
            assert(named(fs[fs.len() - 1], file_id_name()));
        }
        if has_field(fs, file_id_name()) && !named(fs.last(), file_id_name()) {
            let i = choose|i: int| 0 <= i < fs.len() && #[trigger] named(fs[i], file_id_name());
            assert(i < fs.len() - 1);
            assert(named(p[i], file_id_name()));
        }
        if job_of(p).file_id is Some {
            let i = choose|i: int|
                0 <= i < p.len() && #[trigger] named(p[i], file_id_name()) && job_of(p).file_id
                    == Some(body_text(p[i])) && forall|j: int|
                    0 <= j < i ==> !named(#[trigger] p[j], file_id_name());
            assert(named(fs[i], file_id_name()));
            assert forall|j: int| 0 <= j < i implies !named(#[trigger] fs[j], file_id_name()) by {
                assert(fs[j] == p[j]);
            }
        } else if job_of(fs).file_id is Some {
            let k = fs.len() - 1;
            assert(named(fs[k], file_id_name()));
            assert forall|j: int| 0 <= j < k implies !named(#[trigger] fs[j], file_id_name()) by {
                assert(fs[j] == p[j]);
            }
        }
    }
}

/// A parsed job configuration; its file id is never empty.
#[derive(Debug)]
pub struct JobDetails {
    file_id: String,
    contraction_file: Option<Vec<u8>>,
    search_terms: Vec<String>,
    check_date: bool,
}

impl View for JobDetails {
    type V = JobModel;

    closed spec fn view(&self) -> JobModel {
        JobModel {
            file_id: Some(self.file_id@),
            contraction_file: match self.contraction_file {
                Some(b) => Some(b@),
                None => None,
            },
            search_terms: texts(self.search_terms@),
            check_date: self.check_date,
        }
    }
}

/// A job configuration being built from form fields, one at a time.
#[derive(Debug, Clone)]
pub struct JobBuilder {
    file_id: Option<String>,
    contraction_file: Option<Vec<u8>>,
    search_terms: Vec<String>,
    check_date: bool,
}

impl View for JobBuilder {
    type V = JobModel;

    closed spec fn view(&self) -> JobModel {
        JobModel {
            file_id: match self.file_id {
                Some(s) => Some(s@),
                None => None,
            },
            contraction_file: match self.contraction_file {
                Some(b) => Some(b@),
                None => None,
            },
            search_terms: texts(self.search_terms@),
            check_date: self.check_date,
        }
    }
}

/// Whether `name` is present and equal to `lit`.
fn is_named(name: &Option<String>, lit: &str) -> (r: bool)
    ensures
        r == (name matches Some(x) && x@ == lit@),
{
    match name {
        Some(x) => *x == String::from_str(lit),
        None => false,
    }
}

impl JobBuilder {
    /// A builder that has seen no field.
    pub fn new() -> (r: JobBuilder)
        ensures
            r@ == initial_job(),
    {
        let r = JobBuilder {
            file_id: None,
            contraction_file: None,
            search_terms: Vec::new(),
            check_date: false,
        };
        proof {
            assert(texts(r.search_terms@) =~= Seq::<Seq<char>>::empty());
        }
        r
    }

    /// What must be read of the content of the next field, named `name`.
    pub fn wanted(&self, name: &Option<String>) -> (r: FieldRead)
        ensures
            r == read_for(self@, *name),
    {
        proof {
            reveal_strlit("fileId");
            reveal_strlit("contractionFile");
            reveal_strlit("searchTerms");
        }
        if is_named(name, "fileId") && self.file_id.is_none() {
            FieldRead::Text
        } else if is_named(name, "contractionFile") {
            FieldRead::Bytes
        } else if is_named(name, "searchTerms") && self.search_terms.len() < SEARCH_TERM_LIMIT {
            FieldRead::Text
        } else {
            FieldRead::Skip
        }
    }

    /// Takes in the next field.
    pub fn add(&mut self, f: Field)
        ensures
            final(self)@ == step(old(self)@, f),
    {
        proof {
            reveal_strlit("fileId");
            reveal_strlit("contractionFile");
            reveal_strlit("searchTerms");
            reveal_strlit("checkDate");
        }
        let ghost g = f;
        if is_named(&f.name, "fileId") {
            if self.file_id.is_none() {
                let t = match f.body {
                    FieldBody::Text(t) => t,
                    _ => String::new(),
                };
                self.file_id = Some(t);
            }
        } else if is_named(&f.name, "contractionFile") {
            let b = match f.body {
                FieldBody::Bytes(b) => b,
                _ => Vec::new(),
            };
            proof {
                assert(b@ == body_bytes(g));
            }
            self.contraction_file = Some(b);
        } else if is_named(&f.name, "searchTerms") {
            if self.search_terms.len() < SEARCH_TERM_LIMIT {
                let t = match f.body {
                    FieldBody::Text(t) => t,
                    _ => String::new(),
                };
                let ghost prev = self.search_terms@;
                let ghost tv = t@;
                self.search_terms.push(t);
                proof {
                    assert(texts(self.search_terms@) =~= texts(prev).push(tv));
                }
            }
        } else if is_named(&f.name, "checkDate") {
            self.check_date = true;
        }
    }

    /// The configuration, or an error when no `fileId` field was seen or
    /// the first one was empty.
    pub fn finish(self) -> (r: Result<JobDetails, Error>)
        ensures
            self@.file_id is None ==> (r matches Err(Error::MultipartFormError(m)) && m@
                == missing_file_id_message()),
            self@.file_id matches Some(id) && id.len() == 0 ==> (r matches Err(
                Error::MultipartFormError(m),
            ) && m@ == empty_file_id_message()),
            has_usable_file_id(self@) ==> (r matches Ok(j) && j@ == self@),
            r matches Ok(j) ==> has_usable_file_id(j@),
    {
        match self.file_id {
            None => {
                proof {
                    reveal_strlit("fileId not present in formdata");
                }
                Err(Error::MultipartFormError(String::from_str("fileId not present in formdata")))
            },
            Some(id) => {
                if id.as_str().is_empty() {
                    proof {
                        reveal_strlit("fileId is empty in formdata");
                    }
                    Err(Error::MultipartFormError(String::from_str("fileId is empty in formdata")))
                } else {
                    Ok(
                        JobDetails {
                            file_id: id,
                            contraction_file: self.contraction_file,
                            search_terms: self.search_terms,
                            check_date: self.check_date,
                        },
                    )
                }
            },
        }
    }
}

impl JobDetails {
    #[verifier::type_invariant]
    spec fn file_id_present(&self) -> bool {
        self.file_id@.len() > 0
    }

    /// The id of the file the job runs on.
    pub fn file_id(&self) -> (r: &str)
        ensures
            self@.file_id == Some(r@),
            r@.len() > 0,
    {
        proof {
            use_type_invariant(self);
        }
        self.file_id.as_str()
    }

    /// The contraction payload, if the form carried one.
    pub fn contraction_file(&self) -> (r: &Option<Vec<u8>>)
        ensures
            self@.contraction_file == match *r {
                Some(b) => Some(b@),
                None => None,
            },
    {
        &self.contraction_file
    }

    /// The search terms, in the order they came.
    pub fn search_terms(&self) -> (r: &Vec<String>)
        ensures
            texts(r@) == self@.search_terms,
    {
        &self.search_terms
    }

    /// Whether the job checks dates.
    pub fn check_date(&self) -> (r: bool)
        ensures
            r == self@.check_date,
    {
        self.check_date
    }

    /// Parses a job configuration from the fields of a form, in order.
    pub fn try_from(fields: Vec<Field>) -> (r: Result<JobDetails, Error>)
        ensures
            job_of(fields@).file_id is None ==> (r matches Err(Error::MultipartFormError(m)) && m@
                == missing_file_id_message()),
            job_of(fields@).file_id matches Some(id) && id.len() == 0 ==> (r matches Err(
                Error::MultipartFormError(m),
            ) && m@ == empty_file_id_message()),
            has_usable_file_id(job_of(fields@)) ==> (r matches Ok(j) && j@ == job_of(fields@)),
            r matches Ok(j) ==> has_usable_file_id(j@),
    {
        let ghost all = fields@;
        let mut rest = fields;
        let mut b = JobBuilder::new();
        proof {
            assert(all.take(0) =~= Seq::<Field>::empty());
            assert(all.skip(0) =~= all);
        }
        while rest.len() > 0
            invariant
                rest@.len() <= all.len(),
                rest@ == all.skip(all.len() - rest@.len()),
                b@ == job_of(all.take(all.len() - rest@.len())),
            decreases rest@.len(),
        {
            let ghost k = all.len() - rest@.len();
            let f = rest.remove(0);
            proof {
                assert(f == all[k]);
                assert(all.take(k + 1).drop_last() =~= all.take(k));
                assert(rest@ =~= all.skip(k + 1));
            }
            b.add(f);
        }
        proof {
            assert(all.take(all.len() as int) =~= all);
        }
        b.finish()
    }
}

} // verus!
