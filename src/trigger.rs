//! Submitting a build and following its queue item to a build number.
use vstd::prelude::*;
use crate::model::{JobInfo, ParameterValue};
use crate::resolver::opt_view;
use crate::text::str_eq;
use crate::urls::{build_job_url, job_url_spec};

verus! {

/// How many times the queue item is asked for its build number.
pub const QUEUE_POLL_BUDGET: u32 = 30;

/// Why a job cannot be built.
#[derive(Debug, Clone, Copy, PartialEq, Eq, Structural)]
pub enum NotBuildable {
    /// The job is disabled.
    Disabled,
    /// The job declares itself not buildable for another reason.
    Refused,
}

impl NotBuildable {
    /// The message shown to the user.
    pub fn to_string(&self) -> (r: String)
        ensures
            *self == NotBuildable::Disabled ==> r@
                == "The job is disabled. Please check the job configuration in Jenkins."@,
            *self == NotBuildable::Refused ==> r@
                == "The job is not buildable. Please check the job configuration in Jenkins."@,
    {
        match self {
            NotBuildable::Disabled => String::from_str(
                "The job is disabled. Please check the job configuration in Jenkins.",
            ),
            NotBuildable::Refused => String::from_str(
                "The job is not buildable. Please check the job configuration in Jenkins.",
            ),
        }
    }
}

/// A job may be triggered unless it says it is not buildable; a disabled
/// one is told apart by its status token.
pub fn check_buildable(job: &JobInfo) -> (r: Result<(), NotBuildable>)
    ensures
        job.buildable != Some(false) ==> r is Ok,
        job.buildable == Some(false) ==> r == Err::<(), NotBuildable>(
            if opt_view(job.color) == Some("disabled"@) {
                NotBuildable::Disabled
            } else {
                NotBuildable::Refused
            },
        ),
{
    match job.buildable {
        Some(false) => {
            let disabled = match &job.color {
                Some(c) => str_eq(c.as_str(), "disabled"),
                None => false,
            };
            if disabled {
                Err(NotBuildable::Disabled)
            } else {
                Err(NotBuildable::Refused)
            }
        },
        _ => Ok(()),
    }
}

/// The request that triggers a build.
#[derive(Debug, Clone, PartialEq)]
pub struct TriggerRequest {
    /// Where to post.
    pub url: String,
    /// The form fields, name and value, when the build takes parameters.
    pub form: Option<Vec<(String, String)>>,
}

/// The form fields carry exactly the given parameters, in order.
pub open spec fn form_matches(form: Seq<(String, String)>, params: Seq<ParameterValue>) -> bool {
    &&& form.len() == params.len()
    &&& forall|i: int|
        0 <= i < form.len() ==> (#[trigger] form[i]).0@ == params[i].name@ && form[i].1@
            == params[i].value@
}

/// Builds the trigger request: the plain build endpoint without parameters,
/// the parameterized one with the values as form fields otherwise.
pub fn trigger_request(host: &str, job_name: &str, parameters: Option<Vec<ParameterValue>>) -> (r:
    TriggerRequest)
    ensures
        match parameters {
            None => r.url@ == job_url_spec(host@, job_name@) + "/build"@ && r.form is None,
            Some(ps) => {
                &&& r.url@ == job_url_spec(host@, job_name@) + "/buildWithParameters"@
                &&& r.form is Some
                &&& form_matches(r.form->Some_0@, ps@)
            },
        },
{
    let mut url = build_job_url(host, job_name);
    match parameters {
        None => {
            url.append("/build");
            TriggerRequest { url, form: None }
        },
        Some(ps) => {
            url.append("/buildWithParameters");
            let mut form: Vec<(String, String)> = Vec::new();
            let mut i: usize = 0;
            while i < ps.len()
                invariant
                    i <= ps@.len(),
                    form_matches(form@, ps@.subrange(0, i as int)),
                decreases ps@.len() - i,
            {
                let name = ps[i].name.clone();
                let value = ps[i].value.clone();
                form.push((name, value));
                i = i + 1;
            }
            assert(ps@.subrange(0, ps@.len() as int) == ps@);
            TriggerRequest { url, form: Some(form) }
        },
    }
}

/// What one look at the queue item found.
#[derive(Debug, Clone, Copy, PartialEq, Eq, Structural)]
pub enum QueuePoll {
    /// The queue item names its build.
    Resolved(i32),
    /// The queue item is still waiting.
    Pending,
    /// The queue item could not be read; the job's last build number, if
    /// that could be read instead.
    Lost(Option<i32>),
}

/// What to do after one look at the queue item.
#[derive(Debug, Clone, Copy, PartialEq, Eq, Structural)]
pub enum QueueDecision {
    /// The queue item named this build.
    Started(i32),
    /// The queue item is gone; this is the job's last build.
    AlreadyStarted(i32),
    /// Wait and look again.
    Wait,
    /// The budget is spent while the item still waits.
    TimedOut,
    /// The budget is spent and no build number could be found.
    Undetermined,
}

/// The decision on the `attempt`-th look (counted from 1) out of `budget`.
pub open spec fn poll_decision(attempt: nat, budget: nat, poll: QueuePoll) -> QueueDecision {
    match poll {
        QueuePoll::Resolved(n) => QueueDecision::Started(n),
        QueuePoll::Lost(Some(n)) => QueueDecision::AlreadyStarted(n),
        QueuePoll::Pending => if attempt >= budget {
            QueueDecision::TimedOut
        } else {
            QueueDecision::Wait
        },
        QueuePoll::Lost(None) => if attempt >= budget {
            QueueDecision::Undetermined
        } else {
            QueueDecision::Wait
        },
    }
}

/// The decision ends the wait.
pub open spec fn is_final(d: QueueDecision) -> bool {
    d != QueueDecision::Wait
}

/// The decisions taken on a series of looks, the first being look 1.
pub open spec fn poll_decisions(budget: nat, polls: Seq<QueuePoll>) -> Seq<QueueDecision> {
    Seq::new(polls.len(), |i: int| poll_decision((i + 1) as nat, budget, polls[i]))
}

/// A look that gives no build number.
pub open spec fn is_unresolved(p: QueuePoll) -> bool {
    p == QueuePoll::Pending || p == QueuePoll::Lost(None)
}

/// When the queue item never gives a build number and the job's last build
/// cannot be read either, the wait goes on through every look before the
/// last one of the budget and ends on exactly that one, with `Undetermined`
/// and no failure; while the item merely waits it ends there too, with
/// `TimedOut`.
pub proof fn lemma_unresolved_wait_ends_at_budget(budget: nat, polls: Seq<QueuePoll>)
    requires
        budget >= 1,
        polls.len() == budget,
        forall|i: int| 0 <= i < polls.len() ==> is_unresolved(#[trigger] polls[i]),
    ensures
        forall|i: int|
            0 <= i < budget - 1 ==> #[trigger] poll_decisions(budget, polls)[i]
                == QueueDecision::Wait,
        is_final(poll_decisions(budget, polls)[budget - 1]),
        polls[budget - 1] == QueuePoll::Lost(None) ==> poll_decisions(budget, polls)[budget - 1]
            == QueueDecision::Undetermined,
        polls[budget - 1] == QueuePoll::Pending ==> poll_decisions(budget, polls)[budget - 1]
            == QueueDecision::TimedOut,
{
    assert(is_unresolved(polls[budget - 1]));
}

/// The count of looks at one queue item.
pub struct QueueTracker {
    attempts: u32,
    budget: u32,
}

impl QueueTracker {
    /// Looks taken so far.
    pub closed spec fn attempts(&self) -> nat {
        self.attempts as nat
    }

    /// Looks allowed in all.
    pub closed spec fn budget(&self) -> nat {
        self.budget as nat
    }

    /// A tracker that allows `budget` looks.
    pub fn new(budget: u32) -> (r: QueueTracker)
        ensures
            r.attempts() == 0,
            r.budget() == budget,
    {
        QueueTracker { attempts: 0, budget }
    }

    /// Another look is allowed.
    pub fn can_poll(&self) -> (r: bool)
        ensures
            r == (self.attempts() < self.budget()),
    {
        self.attempts < self.budget
    }

    /// Takes the result of the next look and decides.
    pub fn observe(&mut self, poll: QueuePoll) -> (r: QueueDecision)
        requires
            old(self).attempts() < old(self).budget(),
        ensures
            final(self).attempts() == old(self).attempts() + 1,
            final(self).budget() == old(self).budget(),
            r == poll_decision(final(self).attempts(), final(self).budget(), poll),
    {
        self.attempts = self.attempts + 1;
        match poll {
            QueuePoll::Resolved(n) => QueueDecision::Started(n),
            QueuePoll::Lost(Some(n)) => QueueDecision::AlreadyStarted(n),
            QueuePoll::Pending => if self.attempts >= self.budget {
                QueueDecision::TimedOut
            } else {
                QueueDecision::Wait
            },
            QueuePoll::Lost(None) => if self.attempts >= self.budget {
                QueueDecision::Undetermined
            } else {
                QueueDecision::Wait
            },
        }
    }
}

} // verus!
