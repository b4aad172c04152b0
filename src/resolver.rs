//! Turning an optional starting job into one concrete job path, descending
//! through folders by the user's choices.
//!
//! The resolver is a state machine: each method takes what the server or the
//! user answered and says what to do next. The caller performs the fetches
//! and the prompts; no state is kept between two resolutions.
use vstd::prelude::*;
use crate::formatting::{format_job_color, job_color_label};
use crate::model::{JobInfo, SubJobInfo};
use crate::text::concat3;

verus! {

/// Whether the user may stop at a folder as well as at a leaf.
#[derive(Debug, Clone, Copy, PartialEq, Eq, Structural)]
pub enum ResolveMode {
    /// Descend until a job without children is reached.
    Strict,
    /// At every folder, also offer to stop there.
    Open,
}

/// Where a resolution stands.
#[derive(Debug, Clone, Copy, PartialEq, Eq, Structural)]
pub enum Stage {
    AwaitRoot,
    AwaitJob,
    AwaitChoice,
    Finished,
}

/// Why a resolution stopped without a job.
#[derive(Debug, Clone, Copy, PartialEq, Eq, Structural)]
pub enum ResolveError {
    /// The server lists no jobs at all.
    NoJobs,
    /// The chosen index is not one of the options offered.
    SelectionOutOfRange,
    /// An answer came that the resolver was not waiting for.
    UnexpectedEvent,
}

impl ResolveError {
    /// The message shown to the user.
    pub fn to_string(&self) -> (r: String)
        ensures
            *self == ResolveError::NoJobs ==> r@ == "No jobs found on this Jenkins instance"@,
            *self == ResolveError::SelectionOutOfRange ==> r@ == "Invalid selection"@,
            *self == ResolveError::UnexpectedEvent ==> r@
                == "Unexpected answer during job selection"@,
    {
        match self {
            ResolveError::NoJobs => String::from_str("No jobs found on this Jenkins instance"),
            ResolveError::SelectionOutOfRange => String::from_str("Invalid selection"),
            ResolveError::UnexpectedEvent => String::from_str("Unexpected answer during job selection"),
        }
    }
}

/// What the caller is to do next.
#[derive(Debug, Clone, PartialEq)]
pub enum ResolveStep {
    /// Fetch the root job listing and pass it to `on_root_jobs`.
    FetchRoot,
    /// Fetch the description of this job path and pass it to `on_job`.
    FetchJob(String),
    /// Offer these options and pass the chosen index to `on_choice`.
    Choose(Vec<String>),
    /// The resolution is complete: this is the job path.
    Done(String),
}

/// The mathematical content of a `ResolveStep`.
pub enum StepView {
    FetchRoot,
    FetchJob(Seq<char>),
    Choose(Seq<Seq<char>>),
    Done(Seq<char>),
}

/// The characters of each string of a vector.
pub open spec fn strings_view(v: Seq<String>) -> Seq<Seq<char>> {
    v.map_values(|s: String| s@)
}

/// The characters of an optional string.
pub open spec fn opt_view(o: Option<String>) -> Option<Seq<char>> {
    match o {
        Some(s) => Some(s@),
        None => None,
    }
}

impl View for ResolveStep {
    type V = StepView;

    open spec fn view(&self) -> StepView {
        match self {
            ResolveStep::FetchRoot => StepView::FetchRoot,
            ResolveStep::FetchJob(p) => StepView::FetchJob(p@),
            ResolveStep::Choose(o) => StepView::Choose(strings_view(o@)),
            ResolveStep::Done(p) => StepView::Done(p@),
        }
    }
}

/// The path of child `child` of the job at `path`: folders address their
/// children by a repeated `job/` segment.
pub open spec fn child_path(path: Seq<char>, child: Seq<char>) -> Seq<char> {
    path + "/job/"@ + child
}

/// The path reached from `path` by descending into `names`, one level each.
pub open spec fn descend(path: Seq<char>, names: Seq<Seq<char>>) -> Seq<char>
    decreases names.len(),
{
    if names.len() == 0 {
        path
    } else {
        descend(child_path(path, names[0]), names.drop_first())
    }
}

/// The `/job/<name>` segments of `names`, in order.
pub open spec fn job_segments(names: Seq<Seq<char>>) -> Seq<char>
    decreases names.len(),
{
    if names.len() == 0 {
        Seq::empty()
    } else {
        "/job/"@ + names[0] + job_segments(names.drop_first())
    }
}

/// Descending through any number of folders appends one `/job/<name>`
/// segment per level to the starting path, in the order chosen: the path
/// after each choice is the path before it, `/job/`, and the chosen name,
/// at every depth.
pub proof fn lemma_descent_appends_segments(path: Seq<char>, names: Seq<Seq<char>>)
    ensures
        descend(path, names) == path + job_segments(names),
    decreases names.len(),
{
    if names.len() > 0 {
        lemma_descent_appends_segments(child_path(path, names[0]), names.drop_first());
        assert(child_path(path, names[0]) + job_segments(names.drop_first()) =~= path
            + job_segments(names));
    } else {
        assert(path + job_segments(names) =~= path);
    }
}

/// How a listed job is offered: its name and its status label.
pub open spec fn option_text(job: SubJobInfo) -> Seq<char> {
    job.name@ + " ["@ + job_color_label(opt_view(job.color)) + "]"@
}

/// The text of the option that stops at the current folder.
pub open spec fn stop_here_text() -> Seq<char> {
    "[Open this job/folder]"@
}

/// The options offered for a listing of jobs.
pub open spec fn listing_options(jobs: Seq<SubJobInfo>) -> Seq<Seq<char>> {
    jobs.map_values(|j: SubJobInfo| option_text(j))
}

/// The names of a listing of jobs.
pub open spec fn listing_names(jobs: Seq<SubJobInfo>) -> Seq<Seq<char>> {
    jobs.map_values(|j: SubJobInfo| j.name@)
}

/// The children that a job description lists; absent counts as none.
pub open spec fn children_of(info: JobInfo) -> Seq<SubJobInfo> {
    match info.jobs {
        Some(v) => v@,
        None => Seq::empty(),
    }
}

/// How many options precede the first child in `mode`.
pub open spec fn lead_options(mode: ResolveMode) -> int {
    if mode == ResolveMode::Open { 1 } else { 0 }
}

/// The state of one resolution.
pub struct JobResolver {
    mode: ResolveMode,
    stage: Stage,
    at_root: bool,
    path: String,
    children: Vec<String>,
}

impl JobResolver {
    pub closed spec fn mode(&self) -> ResolveMode {
        self.mode
    }

    pub closed spec fn stage(&self) -> Stage {
        self.stage
    }

    /// The choice on offer is among the root jobs.
    pub closed spec fn at_root(&self) -> bool {
        self.at_root
    }

    /// The job path reached so far.
    pub closed spec fn path(&self) -> Seq<char> {
        self.path@
    }

    /// The names of the children on offer.
    pub closed spec fn children(&self) -> Seq<Seq<char>> {
        strings_view(self.children@)
    }

    /// Begins a resolution, from `initial` when it is given and from the
    /// root listing otherwise.
    pub fn start(mode: ResolveMode, initial: Option<String>) -> (r: (JobResolver, ResolveStep))
        ensures
            r.0.mode() == mode,
            match initial {
                Some(p) => r.0.stage() == Stage::AwaitJob && r.0.path() == p@
                    && r.1@ == StepView::FetchJob(p@),
                None => r.0.stage() == Stage::AwaitRoot && r.1@ == StepView::FetchRoot,
            },
    {
        match initial {
            Some(p) => {
                let step = ResolveStep::FetchJob(p.clone());
                let res = JobResolver {
                    mode,
                    stage: Stage::AwaitJob,
                    at_root: false,
                    path: p,
                    children: Vec::new(),
                };
                (res, step)
            },
            None => {
                let res = JobResolver {
                    mode,
                    stage: Stage::AwaitRoot,
                    at_root: true,
                    path: String::new(),
                    children: Vec::new(),
                };
                (res, ResolveStep::FetchRoot)
            },
        }
    }

    /// Takes the root listing: an empty one ends the resolution with
    /// `NoJobs`, any other is offered for a choice.
    pub fn on_root_jobs(&mut self, jobs: &Vec<SubJobInfo>) -> (r: Result<ResolveStep, ResolveError>)
        ensures
            old(self).stage() != Stage::AwaitRoot ==> r == Err::<ResolveStep, ResolveError>(
                ResolveError::UnexpectedEvent) && *final(self) == *old(self),
            old(self).stage() == Stage::AwaitRoot && jobs@.len() == 0 ==> r == Err::<
                ResolveStep,
                ResolveError,
            >(ResolveError::NoJobs),
            old(self).stage() == Stage::AwaitRoot && jobs@.len() > 0 ==> {
                &&& r is Ok
                &&& r->Ok_0@ == StepView::Choose(listing_options(jobs@))
                &&& final(self).stage() == Stage::AwaitChoice
                &&& final(self).at_root()
                &&& final(self).children() == listing_names(jobs@)
                &&& final(self).mode() == old(self).mode()
            },
    {
        if self.stage != Stage::AwaitRoot {
            return Err(ResolveError::UnexpectedEvent);
        }
        if jobs.len() == 0 {
            self.stage = Stage::Finished;
            return Err(ResolveError::NoJobs);
        }
        let (names, options) = describe_listing(jobs);
        self.stage = Stage::AwaitChoice;
        self.at_root = true;
        self.children = names;
        Ok(ResolveStep::Choose(options))
    }

    /// Takes the description of the job at the current path: without
    /// children the path is the answer; a folder's children are offered,
    /// after a stop-here option in `Open` mode.
    pub fn on_job(&mut self, info: &JobInfo) -> (r: Result<ResolveStep, ResolveError>)
        ensures
            old(self).stage() != Stage::AwaitJob ==> r == Err::<ResolveStep, ResolveError>(
                ResolveError::UnexpectedEvent) && *final(self) == *old(self),
            old(self).stage() == Stage::AwaitJob && children_of(*info).len() == 0 ==> {
                &&& r is Ok
                &&& r->Ok_0@ == StepView::Done(old(self).path())
                &&& final(self).stage() == Stage::Finished
            },
            old(self).stage() == Stage::AwaitJob && children_of(*info).len() > 0 ==> {
                &&& r is Ok
                &&& r->Ok_0@ == StepView::Choose(
                    if old(self).mode() == ResolveMode::Open {
                        seq![stop_here_text()] + listing_options(children_of(*info))
                    } else {
                        listing_options(children_of(*info))
                    },
                )
                &&& final(self).stage() == Stage::AwaitChoice
                &&& !final(self).at_root()
                &&& final(self).path() == old(self).path()
                &&& final(self).children() == listing_names(children_of(*info))
                &&& final(self).mode() == old(self).mode()
            },
    {
        if self.stage != Stage::AwaitJob {
            return Err(ResolveError::UnexpectedEvent);
        }
        match &info.jobs {
            Some(jobs) if jobs.len() > 0 => {
                let (names, listed) = describe_listing(jobs);
                let options = if self.mode == ResolveMode::Open {
                    let mut o: Vec<String> = Vec::new();
                    o.push(String::from_str("[Open this job/folder]"));
                    let mut rest = listed;
                    o.append(&mut rest);
                    proof {
                        assert(strings_view(o@) =~= seq![stop_here_text()] + listing_options(
                            jobs@));
                    }
                    o
                } else {
                    listed
                };
                self.stage = Stage::AwaitChoice;
                self.at_root = false;
                self.children = names;
                Ok(ResolveStep::Choose(options))
            },
            _ => {
                self.stage = Stage::Finished;
                Ok(ResolveStep::Done(self.path.clone()))
            },
        }
    }

    /// Takes the index of the option the user chose: a child is descended
    /// into, the stop-here option ends the resolution at the current path.
    pub fn on_choice(&mut self, index: usize) -> (r: Result<ResolveStep, ResolveError>)
        ensures
            old(self).stage() != Stage::AwaitChoice ==> r == Err::<ResolveStep, ResolveError>(
                ResolveError::UnexpectedEvent) && *final(self) == *old(self),
            old(self).stage() == Stage::AwaitChoice ==> ({
                let lead = if old(self).at_root() { 0 } else { lead_options(old(self).mode()) };
                let k = index - lead;
                &&& lead == 1 && index == 0 ==> r is Ok && r->Ok_0@ == StepView::Done(
                    old(self).path()) && final(self).stage() == Stage::Finished
                &&& index >= lead + old(self).children().len() ==> r == Err::<
                    ResolveStep,
                    ResolveError,
                >(ResolveError::SelectionOutOfRange) && *final(self) == *old(self)
                &&& 0 <= k < old(self).children().len() ==> {
                    let next = if old(self).at_root() {
                        old(self).children()[k]
                    } else {
                        child_path(old(self).path(), old(self).children()[k])
                    };
                    &&& r is Ok
                    &&& r->Ok_0@ == StepView::FetchJob(next)
                    &&& final(self).stage() == Stage::AwaitJob
                    &&& final(self).path() == next
                    &&& final(self).mode() == old(self).mode()
                }
            }),
    {
        if self.stage != Stage::AwaitChoice {
            return Err(ResolveError::UnexpectedEvent);
        }
        let lead: usize = if self.at_root {
            0
        } else if self.mode == ResolveMode::Open {
            1
        } else {
            0
        };
        if lead == 1 && index == 0 {
            self.stage = Stage::Finished;
            return Ok(ResolveStep::Done(self.path.clone()));
        }
        if index < lead || index - lead >= self.children.len() {
            return Err(ResolveError::SelectionOutOfRange);
        }
        let k = index - lead;
        let next = if self.at_root {
            self.children[k].clone()
        } else {
            concat3(self.path.as_str(), "/job/", self.children[k].as_str())
        };
        self.stage = Stage::AwaitJob;
        self.at_root = false;
        self.path = next.clone();
        self.children = Vec::new();
        Ok(ResolveStep::FetchJob(next))
    }
}

/// The names of a listing and the options it is offered with.
fn describe_listing(jobs: &Vec<SubJobInfo>) -> (r: (Vec<String>, Vec<String>))
    ensures
        strings_view(r.0@) == listing_names(jobs@),
        strings_view(r.1@) == listing_options(jobs@),
{
    let mut names: Vec<String> = Vec::new();
    let mut options: Vec<String> = Vec::new();
    let mut i: usize = 0;
    while i < jobs.len()
        invariant
            i <= jobs@.len(),
            strings_view(names@) == listing_names(jobs@.subrange(0, i as int)),
            strings_view(options@) == listing_options(jobs@.subrange(0, i as int)),
        decreases jobs@.len() - i,
    {
        let job = &jobs[i];
        let label = match &job.color {
            Some(c) => format_job_color(Some(c.as_str())),
            None => format_job_color(None),
        };
        let ghost old_names = names@;
        let ghost old_options = options@;
        let mut option = job.name.clone();
        option.append(" [");
        option.append(label.as_str());
        option.append("]");
        assert(label@ == job_color_label(opt_view(job.color)));
        assert(option@ == option_text(*job));
        names.push(job.name.clone());
        options.push(option);
        proof {
            let sub = jobs@.subrange(0, i + 1);
            assert(strings_view(old_names).len() == old_names.len());
            assert(listing_names(jobs@.subrange(0, i as int)).len() == i);
            assert(strings_view(old_options).len() == old_options.len());
            assert(listing_options(jobs@.subrange(0, i as int)).len() == i);
            assert(sub == jobs@.subrange(0, i as int).push(jobs@[i as int]));
            assert forall|j: int| 0 <= j < i implies #[trigger] names@[j]@ == sub[j].name@
                && options@[j]@ == option_text(sub[j]) by {
                assert(old_names[j]@ == strings_view(old_names)[j]);
                assert(old_options[j]@ == strings_view(old_options)[j]);
                assert(sub[j] == jobs@.subrange(0, i as int)[j]);
            }
            assert(options@[i as int]@ == option_text(sub[i as int]));
            assert(strings_view(names@) =~= listing_names(sub));
            assert forall|j: int| 0 <= j <= i implies #[trigger] strings_view(options@)[j]
                == listing_options(sub)[j] by {
                assert(strings_view(options@)[j] == options@[j]@);
                assert(listing_options(sub)[j] == option_text(sub[j]));
                if j < i {
                    assert(old_options[j]@ == strings_view(old_options)[j]);
                    assert(sub[j] == jobs@.subrange(0, i as int)[j]);
                    assert(options@[j] == old_options[j]);
                }
            }
            assert(strings_view(options@) =~= listing_options(sub));
        }
        i = i + 1;
    }
    assert(jobs@.subrange(0, jobs@.len() as int) == jobs@);
    (names, options)
}

} // verus!
