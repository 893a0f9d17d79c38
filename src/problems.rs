use vstd::prelude::*;
use vstd::string::*;

use crate::text::eq_str;

verus! {

/// One problem of the catalog; `dir` names its fixture directory, relative to
/// the problems directory of the configuration.
pub struct Problem {
    pub group: Option<String>,
    pub name: Option<String>,
    pub id: String,
    pub dir: String,
}

/// The catalog of problems, loaded once at start.
pub struct ProblemsInfo {
    pub problem: Vec<Problem>,
}

/// HTML that `markdown::to_html` renders from a markdown text.
pub uninterp spec fn html_of(md: Seq<char>) -> Seq<char>;

/// Relies on `markdown::to_html`: CommonMark rendered with the default
/// options, a function of the text alone.
#[verifier::external_body]
fn markdown_to_html(md: &str) -> (r: String)
    ensures
        r@ == html_of(md@),
{
    markdown::to_html(md)
}

/// Why a problem could not be resolved.
#[derive(PartialEq, Eq, Structural, Debug, Clone, Copy)]
pub enum CatalogError {
    ProblemNotFound,
}

impl Problem {
    /// Resolves `id` in the catalog: the first problem with that id, or
    /// `ProblemNotFound` when the catalog has none.
    pub fn by_id<'a>(info: &'a ProblemsInfo, id: &str) -> (r: Result<&'a Problem, CatalogError>)
        ensures
            r is Err <==> !info.contains_id(id@),
            r matches Err(e) ==> e == CatalogError::ProblemNotFound,
            r matches Ok(p) ==> exists|i: int| info.first_index(id@, i) && *p == info.problem@[i],
    {
        match info.position(id) {
            Some(i) => Ok(&info.problem[i]),
            None => Err(CatalogError::ProblemNotFound),
        }
    }

    /// The problem statement, read from `index.md`, as HTML.
    pub fn statement_html(index_md: &str) -> (r: String)
        ensures
            r@ == html_of(index_md@),
    {
        markdown_to_html(index_md)
    }

    /// Path of the problem statement, `index.md` in the problem's directory.
    pub fn index_md_path(&self, problems_dir: &str) -> (r: String)
        ensures
            r@ == problems_dir@ + "/"@ + self.dir@ + "/index.md"@,
    {
        String::from_str(problems_dir).concat("/").concat(self.dir.as_str()).concat("/index.md")
    }
}

impl ProblemsInfo {
    /// Index of the first problem whose id is `id`.
    pub open spec fn first_index(&self, id: Seq<char>, i: int) -> bool {
        &&& 0 <= i < self.problem@.len()
        &&& self.problem@[i].id@ == id
        &&& forall|j: int| 0 <= j < i ==> self.problem@[j].id@ != id
    }

    pub open spec fn contains_id(&self, id: Seq<char>) -> bool {
        exists|i: int| 0 <= i < self.problem@.len() && self.problem@[i].id@ == id
    }

    /// Position of the first problem with id `id`, if the catalog has one.
    pub fn position(&self, id: &str) -> (r: Option<usize>)
        ensures
            r is None <==> !self.contains_id(id@),
            r matches Some(i) ==> self.first_index(id@, i as int),
    {
        let mut i: usize = 0;
        while i < self.problem.len()
            invariant
                i <= self.problem@.len(),
                forall|j: int| 0 <= j < i ==> self.problem@[j].id@ != id@,
            decreases self.problem@.len() - i,
        {
            if eq_str(self.problem[i].id.as_str(), id) {
                return Some(i);
            }
            i = i + 1;
        }
        None
    }

    /// Path of the catalog file under the problems directory.
    pub fn info_path(problems_dir: &str) -> (r: String)
        ensures
            r@ == problems_dir@ + "/info.toml"@,
    {
        String::from_str(problems_dir).concat("/info.toml")
    }
}

} // verus!
