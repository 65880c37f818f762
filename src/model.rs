//! A navigable model of a workflow: its jobs, keyed by unique identifiers,
//! and the steps of each normal job, by position. Jobs and steps are views
//! that borrow from the workflow that owns the data.

use vstd::prelude::*;
use vstd::string::*;
use crate::location::{route_of, RouteComponent, RouteStep, SymbolicLocation};
use crate::text::same_text;
use crate::uses::{opt_chars, opt_uses_view, spec_from_common, Uses};

verus! {

/// One step of a normal job, as the document declares it.
pub struct StepData {
    /// The step's `name:`, if any.
    pub name: Option<String>,
    /// The step's `uses:` value, if its body is an action reference rather
    /// than a command to run.
    pub uses: Option<String>,
}

/// What a job does: run its own steps, or call a reusable workflow.
pub enum JobKind {
    Normal(Vec<StepData>),
    ReusableCall(String),
}

/// One entry of a workflow's `jobs:` mapping.
pub struct JobData {
    /// The job's key in the mapping.
    pub id: String,
    pub kind: JobKind,
}

/// Why a workflow could not be built.
#[derive(Copy, Clone, Debug, PartialEq, Eq)]
pub enum WorkflowError {
    /// The path names no file.
    InvalidPath,
    /// The document is not a well-formed workflow.
    InvalidDocument,
}

/// No two jobs share an identifier.
pub open spec fn ids_distinct(jobs: Seq<JobData>) -> bool {
    forall|i: int, j: int|
        0 <= i < jobs.len() && 0 <= j < jobs.len() && i != j ==> #[trigger] jobs[i].id@
            != #[trigger] jobs[j].id@
}

#[verifier::external_type_specification]
#[verifier::external_body]
pub struct ExDocument(yamlpath::Document);

#[verifier::external_type_specification]
#[verifier::external_body]
pub struct ExQueryError(yamlpath::QueryError);

/// Whether the text parses as YAML with no anchor name repeated, so that
/// it can be indexed for queries by route.
pub uninterp spec fn indexable(source: Seq<char>) -> bool;

/// Relies on yamlpath::Document::new: builds the queryable index of a YAML
/// text, and fails on text that does not parse.
#[verifier::external_body]
fn index_document(source: &str) -> (r: Result<yamlpath::Document, yamlpath::QueryError>)
    ensures
        r is Ok == indexable(source@),
{
    yamlpath::Document::new(source)
}

/// A workflow: its path, the file name at its end, the queryable index of
/// its text, and its jobs.
pub struct Workflow {
    path: String,
    filename: String,
    document: yamlpath::Document,
    jobs: Vec<JobData>,
}

/// The final component of a path, if there is one.
pub uninterp spec fn file_name_of(path: Seq<char>) -> Option<Seq<char>>;

/// Relies on std::path::Path::file_name: the final component of a path, if
/// there is one; the result depends on the path's text alone.
#[verifier::external_body]
fn path_file_name(path: &str) -> (r: Option<&str>)
    ensures
        opt_chars(r) == file_name_of(path@),
{
    match std::path::Path::new(path).file_name() {
        Some(name) => name.to_str(),
        None => None,
    }
}

impl Workflow {
    /// The job identifiers are distinct and the file name is not empty.
    pub open spec fn wf(&self) -> bool {
        ids_distinct(self.spec_jobs()) && self.spec_filename().len() > 0
    }

    /// The path the workflow was loaded from.
    pub closed spec fn spec_path(&self) -> Seq<char> {
        self.path@
    }

    /// The file name at the end of the path.
    pub closed spec fn spec_filename(&self) -> Seq<char> {
        self.filename@
    }

    /// The jobs, in the order of the document.
    pub closed spec fn spec_jobs(&self) -> Seq<JobData> {
        self.jobs@
    }

    /// Whether two jobs of `jobs` share an identifier.
    fn has_duplicate_ids(jobs: &Vec<JobData>) -> (r: bool)
        ensures
            r == !ids_distinct(jobs@),
    {
        let n = jobs.len();
        let mut i: usize = 0;
        while i < n
            invariant
                n == jobs@.len(),
                i <= n,
                forall|a: int, b: int|
                    0 <= a < i && 0 <= b < n && a != b ==> #[trigger] jobs@[a].id@
                        != #[trigger] jobs@[b].id@,
            decreases n - i,
        {
            let mut j: usize = 0;
            while j < n
                invariant
                    n == jobs@.len(),
                    i < n,
                    j <= n,
                    forall|a: int, b: int|
                        0 <= a < i && 0 <= b < n && a != b ==> #[trigger] jobs@[a].id@
                            != #[trigger] jobs@[b].id@,
                    forall|b: int| 0 <= b < j && b != i ==> jobs@[i as int].id@ != #[trigger] jobs@[b].id@,
                decreases n - j,
            {
                if j != i && same_text(jobs[i].id.as_str(), jobs[j].id.as_str()) {
                    return true;
                }
                j = j + 1;
            }
            i = i + 1;
        }
        false
    }

    /// Builds a workflow from its path, the file name found at the end of
    /// that path, the index of its text, and its jobs. The file name must be
    /// present and non-empty, and the job identifiers distinct.
    pub fn assemble(
        path: String,
        filename: Option<&str>,
        document: yamlpath::Document,
        jobs: Vec<JobData>,
    ) -> (r: Result<
        Workflow,
        WorkflowError,
    >)
        ensures
            (filename.is_none() || filename.unwrap()@.len() == 0) ==> r == Err::<Workflow, WorkflowError>(WorkflowError::InvalidPath),
            (filename.is_some() && filename.unwrap()@.len() > 0 && !ids_distinct(jobs@)) ==> r == Err::<Workflow, WorkflowError>(WorkflowError::InvalidDocument),
            (filename.is_some() && filename.unwrap()@.len() > 0 && ids_distinct(jobs@)) ==> (r matches Ok(w)
                && w.spec_path() == path@ && w.spec_filename() == filename.unwrap()@
                && w.spec_jobs() == jobs@ && w.spec_document() == document && w.wf()),
    {
        match filename {
            None => Err(WorkflowError::InvalidPath),
            Some(name) => {
                if name.unicode_len() == 0 {
                    return Err(WorkflowError::InvalidPath);
                }
                if Self::has_duplicate_ids(&jobs) {
                    return Err(WorkflowError::InvalidDocument);
                }
                Ok(Workflow { path, filename: String::from_str(name), document, jobs })
            },
        }
    }

    /// Builds a workflow from its path, its text and its jobs. Fails with
    /// `InvalidDocument` when the text does not parse as YAML, then with
    /// `InvalidPath` when the path has no file name, and with
    /// `InvalidDocument` when two jobs share an identifier.
    pub fn new(path: String, source: &str, jobs: Vec<JobData>) -> (r: Result<Workflow, WorkflowError>)
        ensures
            !indexable(source@) ==> r == Err::<Workflow, WorkflowError>(WorkflowError::InvalidDocument),
            indexable(source@) && !ids_distinct(jobs@) ==> r is Err,
            r matches Err(WorkflowError::InvalidDocument) ==> !indexable(source@) || !ids_distinct(jobs@),
            indexable(source@) && !(file_name_of(path@) matches Some(n) && n.len() > 0)
                ==> r == Err::<Workflow, WorkflowError>(WorkflowError::InvalidPath),
            indexable(source@) && ids_distinct(jobs@) && (file_name_of(path@) matches Some(n)
                && n.len() > 0) ==> (r matches Ok(w) && w.spec_filename() == file_name_of(path@).unwrap()),
            r matches Ok(w) ==> w.spec_path() == path@ && w.spec_jobs() == jobs@ && w.wf(),
    {
        let document = match index_document(source) {
            Ok(d) => d,
            Err(_) => return Err(WorkflowError::InvalidDocument),
        };
        let name = path_file_name(path.as_str());
        let name = match name {
            Some(n) => Some(String::from_str(n)),
            None => None,
        };
        match name {
            Some(n) => Self::assemble(path, Some(n.as_str()), document, jobs),
            None => Self::assemble(path, None, document, jobs),
        }
    }

    /// The queryable index of the workflow's text.
    pub closed spec fn spec_document(&self) -> yamlpath::Document {
        self.document
    }

    /// The queryable index of the workflow's text.
    pub fn document(&self) -> (r: &yamlpath::Document)
        ensures
            *r == self.spec_document(),
    {
        &self.document
    }

    /// The path the workflow was loaded from.
    pub fn path(&self) -> (r: &str)
        ensures
            r@ == self.spec_path(),
    {
        self.path.as_str()
    }

    /// The file name at the end of the workflow's path.
    pub fn filename(&self) -> (r: &str)
        ensures
            r@ == self.spec_filename(),
    {
        self.filename.as_str()
    }

    /// The workflow's own location: the root of the document.
    pub fn location(&self) -> (r: SymbolicLocation<'_>)
        ensures
            r.name@ == self.spec_filename(),
            r.annotation@ == "this workflow"@,
            r.link.is_none(),
            r.route@.len() == 0,
    {
        SymbolicLocation {
            name: self.filename.as_str(),
            annotation: String::from_str("this workflow"),
            link: None,
            route: Vec::new(),
        }
    }

    /// An enumeration of the workflow's jobs, from the first.
    pub fn jobs(&self) -> (r: Jobs<'_>)
        ensures
            r.parent == self,
            r.pos == 0,
    {
        Jobs::new(self)
    }

    /// Every job that an enumeration from the first yields before it ends:
    /// one for each position in turn, with no identifier twice.
    pub fn all_jobs(&self) -> (r: Vec<Job<'_>>)
        requires
            self.wf(),
        ensures
            r@.len() == self.spec_jobs().len(),
            forall|i: int|
                0 <= i < r@.len() ==> (#[trigger] r@[i]).wf() && r@[i].spec_index() == i
                    && r@[i].spec_parent() == self,
            forall|i: int, j: int|
                0 <= i < r@.len() && 0 <= j < r@.len() && i != j ==> (#[trigger] r@[i]).spec_id()
                    != (#[trigger] r@[j]).spec_id(),
    {
        let n = self.jobs.len();
        let mut it = self.jobs();
        let mut r: Vec<Job<'_>> = Vec::new();
        while it.pos < n
            invariant
                self.wf(),
                n == self.spec_jobs().len(),
                it.parent == self,
                it.pos <= n,
                r@.len() == it.pos,
                forall|i: int|
                    0 <= i < r@.len() ==> (#[trigger] r@[i]).wf() && r@[i].spec_index() == i
                        && r@[i].spec_parent() == self,
            decreases n - it.pos,
        {
            match it.next() {
                Some(job) => r.push(job),
                None => {},
            }
        }
        assert forall|i: int, j: int|
            0 <= i < r@.len() && 0 <= j < r@.len() && i != j implies (#[trigger] r@[i]).spec_id()
                != (#[trigger] r@[j]).spec_id() by {
            lemma_job_ids_unique(self, i, j);
        }
        r
    }
}

/// No two jobs of a workflow share an identifier, so an enumeration of its
/// jobs, which yields each position once, never yields one identifier twice.
pub proof fn lemma_job_ids_unique(w: &Workflow, i: int, j: int)
    requires
        w.wf(),
        0 <= i < w.spec_jobs().len(),
        0 <= j < w.spec_jobs().len(),
        i != j,
    ensures
        w.spec_jobs()[i].id@ != w.spec_jobs()[j].id@,
{
}

/// A job of a workflow, by its position in the workflow's jobs.
#[derive(Clone, Copy)]
pub struct Job<'w> {
    id: &'w str,
    index: usize,
    inner: &'w JobData,
    parent: &'w Workflow,
}

impl<'w> Job<'w> {
    /// This view stands for the job at its position in its workflow.
    pub open spec fn wf(&self) -> bool {
        self.spec_parent().wf() && self.spec_index() < self.spec_parent().spec_jobs().len()
            && self.spec_inner() == self.spec_parent().spec_jobs()[self.spec_index() as int]
            && self.spec_id() == self.spec_inner().id@
    }

    pub closed spec fn spec_index(&self) -> nat {
        self.index as nat
    }

    /// The job's identifier, its key in the `jobs:` mapping.
    pub closed spec fn spec_id(&self) -> Seq<char> {
        self.id@
    }

    pub closed spec fn spec_inner(&self) -> JobData {
        *self.inner
    }

    pub closed spec fn spec_parent(&self) -> &'w Workflow {
        self.parent
    }

    fn new(index: usize, parent: &'w Workflow) -> (r: Job<'w>)
        requires
            parent.wf(),
            index < parent.spec_jobs().len(),
        ensures
            r.wf(),
            r.spec_index() == index,
            r.spec_parent() == parent,
    {
        let inner = &parent.jobs[index];
        Job { id: inner.id.as_str(), index, inner, parent }
    }

    /// The job's identifier, its key in the `jobs:` mapping.
    pub fn id(&self) -> (r: &'w str)
        ensures
            r@ == self.spec_id(),
    {
        self.id
    }

    /// The job's entry in its workflow.
    pub fn data(&self) -> (r: &'w JobData)
        ensures
            *r == self.spec_inner(),
    {
        self.inner
    }

    /// The workflow the job belongs to.
    pub fn parent(&self) -> (r: &'w Workflow)
        ensures
            r == self.spec_parent(),
    {
        self.parent
    }

    /// The job's location: `jobs`, then its identifier.
    pub fn location(&self) -> (r: SymbolicLocation<'w>)
        ensures
            r.name@ == self.spec_parent().spec_filename(),
            r.annotation@ == "this job"@,
            r.link.is_none(),
            route_of(r.route@) == seq![RouteStep::Key("jobs"@), RouteStep::Key(self.spec_id())],
    {
        self.parent.location().with_job(self)
    }

    /// An enumeration of the job's steps, from the first. Only a normal job
    /// has steps.
    pub fn steps(&self) -> (r: Steps<'w>)
        requires
            self.wf(),
            self.spec_inner().kind is Normal,
        ensures
            r.wf(),
            r.parent == *self,
            r.pos == 0,
    {
        Steps::new(self)
    }

    /// Every step that an enumeration from the first yields before it ends:
    /// positions `0` to `n - 1` in order, `n` the job's step count.
    pub fn all_steps(&self) -> (r: Vec<Step<'w>>)
        requires
            self.wf(),
            self.spec_inner().kind is Normal,
        ensures
            r@.len() == steps_of(self.spec_inner()).len(),
            forall|i: int|
                0 <= i < r@.len() ==> (#[trigger] r@[i]).wf() && r@[i].spec_index() == i
                    && r@[i].spec_parent() == *self,
    {
        let n = match &self.inner.kind {
            JobKind::Normal(steps) => steps.len(),
            JobKind::ReusableCall(_) => 0,
        };
        let mut it = self.steps();
        let mut r: Vec<Step<'w>> = Vec::new();
        while it.pos < n
            invariant
                it.wf(),
                n == it.spec_len(),
                n == steps_of(self.spec_inner()).len(),
                it.parent == *self,
                it.pos <= n,
                r@.len() == it.pos,
                forall|i: int|
                    0 <= i < r@.len() ==> (#[trigger] r@[i]).wf() && r@[i].spec_index() == i
                        && r@[i].spec_parent() == *self,
            decreases n - it.pos,
        {
            match it.next() {
                Some(step) => r.push(step),
                None => {},
            }
        }
        r
    }
}

impl<'w> SymbolicLocation<'w> {
    /// This location, narrowed to a job: `jobs`, then the job's identifier.
    pub fn with_job(&self, job: &Job<'w>) -> (r: SymbolicLocation<'w>)
        ensures
            r.name == self.name,
            r.annotation@ == "this job"@,
            r.link.is_none(),
            route_of(r.route@) == route_of(self.route@) + seq![RouteStep::Key("jobs"@), RouteStep::Key(job.spec_id())],
    {
        let keys = vec![RouteComponent::Key(String::from_str("jobs")), RouteComponent::Key(String::from_str(job.id))];
        assert(route_of(keys@) =~= seq![RouteStep::Key("jobs"@), RouteStep::Key(job.spec_id())]);
        let moved = self.with_keys(&keys);
        SymbolicLocation { name: moved.name, annotation: String::from_str("this job"), link: None, route: moved.route }
    }

    /// This location, narrowed to a step: `steps`, then the step's index.
    pub fn with_step(&self, step: &Step<'w>) -> (r: SymbolicLocation<'w>)
        ensures
            r.name == self.name,
            r.annotation@ == "this step"@,
            r.link.is_none(),
            route_of(r.route@) == route_of(self.route@) + seq![RouteStep::Key("steps"@), RouteStep::Index(step.spec_index())],
    {
        let keys = vec![RouteComponent::Key(String::from_str("steps")), RouteComponent::Index(step.index)];
        assert(route_of(keys@) =~= seq![RouteStep::Key("steps"@), RouteStep::Index(step.spec_index())]);
        let moved = self.with_keys(&keys);
        SymbolicLocation { name: moved.name, annotation: String::from_str("this step"), link: None, route: moved.route }
    }
}

/// An enumeration of a workflow's jobs, in the order of the document.
pub struct Jobs<'w> {
    pub parent: &'w Workflow,
    pub pos: usize,
}

impl<'w> Jobs<'w> {
    fn new(workflow: &'w Workflow) -> (r: Jobs<'w>)
        ensures
            r.parent == workflow,
            r.pos == 0,
    {
        Jobs { parent: workflow, pos: 0 }
    }

    /// The job at the current position, if any, after which the position
    /// moves on by one.
    pub fn next(&mut self) -> (r: Option<Job<'w>>)
        requires
            old(self).parent.wf(),
        ensures
            final(self).parent == old(self).parent,
            old(self).pos < old(self).parent.spec_jobs().len() ==> (r matches Some(j) && j.wf()
                && j.spec_index() == old(self).pos && j.spec_parent() == old(self).parent
                && final(self).pos == old(self).pos + 1),
            old(self).pos >= old(self).parent.spec_jobs().len() ==> r is None && final(self).pos == old(self).pos,
    {
        if self.pos < self.parent.jobs.len() {
            let job = Job::new(self.pos, self.parent);
            self.pos = self.pos + 1;
            Some(job)
        } else {
            None
        }
    }
}

/// A step of a normal job, by its position in the job's steps.
#[derive(Clone, Copy)]
pub struct Step<'w> {
    index: usize,
    inner: &'w StepData,
    parent: Job<'w>,
}

/// The steps of a job, empty for one that calls a reusable workflow.
pub open spec fn steps_of(job: JobData) -> Seq<StepData> {
    match job.kind {
        JobKind::Normal(steps) => steps@,
        JobKind::ReusableCall(_) => Seq::empty(),
    }
}

impl<'w> Step<'w> {
    /// This view stands for the step at its position in a normal job.
    pub open spec fn wf(&self) -> bool {
        self.spec_parent().wf() && self.spec_parent().spec_inner().kind is Normal
            && self.spec_index() < steps_of(self.spec_parent().spec_inner()).len()
            && self.spec_inner() == steps_of(self.spec_parent().spec_inner())[self.spec_index() as int]
    }

    /// The step's position among its job's steps.
    pub closed spec fn spec_index(&self) -> nat {
        self.index as nat
    }

    pub closed spec fn spec_inner(&self) -> StepData {
        *self.inner
    }

    pub closed spec fn spec_parent(&self) -> Job<'w> {
        self.parent
    }

    /// The step's position among its job's steps.
    pub fn index(&self) -> (r: usize)
        ensures
            r == self.spec_index(),
    {
        self.index
    }

    /// The step's entry in its job.
    pub fn data(&self) -> (r: &'w StepData)
        ensures
            *r == self.spec_inner(),
    {
        self.inner
    }

    /// The job the step belongs to.
    pub fn job(&self) -> (r: Job<'w>)
        ensures
            r == self.spec_parent(),
    {
        self.parent
    }

    /// The workflow the step belongs to.
    pub fn workflow(&self) -> (r: &'w Workflow)
        ensures
            r == self.spec_parent().spec_parent(),
    {
        self.parent.parent()
    }

    /// The step's action reference: none for a step that runs a command, or
    /// whose `uses:` value is not a recognized reference.
    pub fn uses(&self) -> (r: Option<Uses<'w>>)
        ensures
            self.spec_inner().uses is None ==> r is None,
            self.spec_inner().uses matches Some(u) ==> opt_uses_view(r) == spec_from_common(u@),
    {
        match &self.inner.uses {
            Some(u) => Uses::from_step(u.as_str()),
            None => None,
        }
    }

    /// The step's location: its job's, then `steps` and its index.
    pub fn location(&self) -> (r: SymbolicLocation<'w>)
        ensures
            r.name@ == self.spec_parent().spec_parent().spec_filename(),
            r.annotation@ == "this step"@,
            r.link.is_none(),
            route_of(r.route@) == seq![
                RouteStep::Key("jobs"@),
                RouteStep::Key(self.spec_parent().spec_id()),
                RouteStep::Key("steps"@),
                RouteStep::Index(self.spec_index()),
            ],
    {
        let r = self.parent.location().with_step(self);
        assert(route_of(r.route@) =~= seq![
                RouteStep::Key("jobs"@),
                RouteStep::Key(self.spec_parent().spec_id()),
                RouteStep::Key("steps"@),
                RouteStep::Index(self.spec_index()),
            ]);
        r
    }

    /// Like `location`, but ending at the step's `name:` key when it has one.
    pub fn location_with_name(&self) -> (r: SymbolicLocation<'w>)
        ensures
            r.name@ == self.spec_parent().spec_parent().spec_filename(),
            r.annotation@ == "this step"@,
            r.link.is_none(),
            self.spec_inner().name is None ==> route_of(r.route@) == seq![
                RouteStep::Key("jobs"@),
                RouteStep::Key(self.spec_parent().spec_id()),
                RouteStep::Key("steps"@),
                RouteStep::Index(self.spec_index()),
            ],
            self.spec_inner().name is Some ==> route_of(r.route@) == seq![
                RouteStep::Key("jobs"@),
                RouteStep::Key(self.spec_parent().spec_id()),
                RouteStep::Key("steps"@),
                RouteStep::Index(self.spec_index()),
                RouteStep::Key("name"@),
            ],
    {
        let here = self.location();
        let located = match self.inner.name {
            Some(_) => {
                let keys = vec![RouteComponent::Key(String::from_str("name"))];
                assert(route_of(keys@) =~= seq![RouteStep::Key("name"@)]);
                let r = here.with_keys(&keys);
                assert(route_of(r.route@) =~= seq![
                        RouteStep::Key("jobs"@),
                        RouteStep::Key(self.spec_parent().spec_id()),
                        RouteStep::Key("steps"@),
                        RouteStep::Index(self.spec_index()),
                        RouteStep::Key("name"@),
                    ]);
                r
            },
            None => here,
        };
        located.annotated("this step")
    }
}

/// An enumeration of a normal job's steps, by position from the first.
pub struct Steps<'w> {
    pub parent: Job<'w>,
    pub pos: usize,
}

impl<'w> Steps<'w> {
    /// The enumeration walks the steps of a normal job.
    pub open spec fn wf(&self) -> bool {
        self.parent.wf() && self.parent.spec_inner().kind is Normal
    }

    /// The number of steps of the job.
    pub open spec fn spec_len(&self) -> nat {
        steps_of(self.parent.spec_inner()).len()
    }

    fn new(job: &Job<'w>) -> (r: Steps<'w>)
        requires
            job.wf(),
            job.spec_inner().kind is Normal,
        ensures
            r.wf(),
            r.parent == *job,
            r.pos == 0,
    {
        Steps { parent: *job, pos: 0 }
    }

    /// The step at the current position, if any, after which the position
    /// moves on by one: the steps come at positions `0` to `n - 1`, in order.
    pub fn next(&mut self) -> (r: Option<Step<'w>>)
        requires
            old(self).wf(),
        ensures
            final(self).wf(),
            final(self).parent == old(self).parent,
            old(self).pos < old(self).spec_len() ==> (r matches Some(s) && s.wf()
                && s.spec_index() == old(self).pos && s.spec_parent() == old(self).parent
                && final(self).pos == old(self).pos + 1),
            old(self).pos >= old(self).spec_len() ==> r is None && final(self).pos == old(self).pos,
    {
        match &self.parent.inner.kind {
            JobKind::Normal(steps) => {
                if self.pos < steps.len() {
                    let step = Step { index: self.pos, inner: &steps[self.pos], parent: self.parent };
                    self.pos = self.pos + 1;
                    Some(step)
                } else {
                    None
                }
            },
            JobKind::ReusableCall(_) => None,
        }
    }
}

} // verus!
