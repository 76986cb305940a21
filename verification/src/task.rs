//! The life of one recognition: pending, running, then completed, failed or
//! cancelled.
//!
//! The task decides; whoever drives it does the waiting. The driver asks the
//! task to start, runs the engine on the job it is given, and hands the
//! engine's outcome back to learn what, if anything, is delivered. A request
//! to abort is looked at on those two occasions only: an engine that is
//! already running is not interrupted.

use crate::aggregate::OcrResult;
use crate::aggregate::MIN_CONFIDENCE_MILLIONTHS;
use crate::engine::conclude;
use crate::engine::conclusion;
use crate::engine::matches_conclusion;
use crate::engine::EngineJob;
use crate::engine::EngineOutcome;
use crate::engine::ImageSource;
use crate::error::OcrError;
use crate::request::configured;
use crate::request::RecognitionRequest;
use crate::OcrAccuracy;
use vstd::prelude::*;

verus! {

/// Where a task stands.
#[derive(Debug, Clone, Copy, PartialEq, Eq, Structural)]
pub enum TaskState {
    /// Created, not yet handed to the engine.
    Pending,
    /// Handed to the engine.
    Running,
    /// Ended with a result, which was delivered.
    Completed,
    /// Ended with an error, which was delivered.
    Failed,
    /// Ended by a request to abort; nothing was delivered.
    Cancelled,
}

/// What the caller asked for.
#[derive(Debug, Clone)]
pub struct TaskInput<B> {
    pub image: ImageSource<B>,
    pub accuracy: OcrAccuracy,
    /// Language tags, most preferred first; absent or empty for the default.
    pub prefered_langs: Option<Vec<String>>,
}

enum Phase<B> {
    Pending(TaskInput<B>),
    Running,
    Completed,
    Failed,
    Cancelled,
}

/// One recognition, from the caller's request to the delivery of its result.
///
/// The task owns the caller's input while it is pending and gives it away,
/// once, when it starts.
pub struct RecognizeTask<B> {
    phase: Phase<B>,
}

/// Whether a state is one of the three in which a task ends.
pub open spec fn is_settled(state: TaskState) -> bool {
    state == TaskState::Completed || state == TaskState::Failed || state == TaskState::Cancelled
}

/// The state after an attempt to start: a pending task is cancelled if its
/// abort was requested and runs otherwise; any other task stays as it is.
pub open spec fn after_start(state: TaskState, abort_requested: bool) -> TaskState {
    if state == TaskState::Pending {
        if abort_requested {
            TaskState::Cancelled
        } else {
            TaskState::Running
        }
    } else {
        state
    }
}

/// Whether the engine's outcome is delivered: only by a running task whose
/// abort was not requested.
pub open spec fn delivers(state: TaskState, abort_requested: bool) -> bool {
    state == TaskState::Running && !abort_requested
}

/// The state after the engine's outcome came in: a running task is
/// cancelled if its abort was requested, and is completed or failed with the
/// outcome otherwise; any other task stays as it is.
pub open spec fn after_finish(
    state: TaskState,
    abort_requested: bool,
    succeeded: bool,
) -> TaskState {
    if state == TaskState::Running {
        if abort_requested {
            TaskState::Cancelled
        } else if succeeded {
            TaskState::Completed
        } else {
            TaskState::Failed
        }
    } else {
        state
    }
}

/// The languages that an input prefers, in its order.
pub open spec fn preferred_languages<B>(input: TaskInput<B>) -> Seq<Seq<char>> {
    match input.prefered_langs {
        Some(languages) => languages.deep_view(),
        None => Seq::empty(),
    }
}

/// Whether `job` is the job that `input` asks for: the same image, and the
/// request configured for its accuracy and languages.
pub open spec fn is_job_for<B>(job: EngineJob<B>, input: TaskInput<B>) -> bool {
    &&& job.image == input.image
    &&& job.request@ == configured(input.accuracy, preferred_languages(input))
}

/// A task that was cancelled before it started stays cancelled and delivers
/// nothing, whatever the engine would have answered and whatever is asked of
/// it later.
pub proof fn lemma_cancelled_before_start_delivers_nothing(
    abort_requested_later: bool,
    succeeded: bool,
)
    ensures
        after_start(TaskState::Pending, true) == TaskState::Cancelled,
        !delivers(after_start(TaskState::Pending, true), abort_requested_later),
        after_finish(after_start(TaskState::Pending, true), abort_requested_later, succeeded)
            == TaskState::Cancelled,
{
}

/// A task that has ended stays as it is: it cannot start again, and it
/// delivers nothing more.
pub proof fn lemma_settled_is_final(state: TaskState, abort_requested: bool, succeeded: bool)
    requires
        is_settled(state),
    ensures
        after_start(state, abort_requested) == state,
        after_finish(state, abort_requested, succeeded) == state,
        !delivers(state, abort_requested),
{
}

/// A delivery ends the task, so that no task delivers twice.
pub proof fn lemma_delivery_settles(state: TaskState, abort_requested: bool, succeeded: bool)
    requires
        delivers(state, abort_requested),
    ensures
        after_finish(state, abort_requested, succeeded) == if succeeded {
            TaskState::Completed
        } else {
            TaskState::Failed
        },
        is_settled(after_finish(state, abort_requested, succeeded)),
{
}

impl<B> RecognizeTask<B> {
    /// Where the task stands.
    pub closed spec fn spec_state(&self) -> TaskState {
        match self.phase {
            Phase::Pending(_) => TaskState::Pending,
            Phase::Running => TaskState::Running,
            Phase::Completed => TaskState::Completed,
            Phase::Failed => TaskState::Failed,
            Phase::Cancelled => TaskState::Cancelled,
        }
    }

    /// The caller's input, for as long as the task holds it.
    pub closed spec fn input(&self) -> Option<TaskInput<B>> {
        match self.phase {
            Phase::Pending(input) => Some(input),
            _ => None,
        }
    }

    /// A task holds its input exactly while it is pending.
    pub proof fn lemma_input_held_while_pending(&self)
        ensures
            self.input() is Some <==> self.state() == TaskState::Pending,
    {
    }

    /// Where the task stands.
    #[verifier::when_used_as_spec(spec_state)]
    pub fn state(&self) -> (state: TaskState)
        ensures
            state == self.state(),
    {
        match &self.phase {
            Phase::Pending(_) => TaskState::Pending,
            Phase::Running => TaskState::Running,
            Phase::Completed => TaskState::Completed,
            Phase::Failed => TaskState::Failed,
            Phase::Cancelled => TaskState::Cancelled,
        }
    }

    /// Starts a pending task, unless its abort was requested.
    ///
    /// A task that starts gives its image away with the job and keeps no
    /// input; one that is cancelled here drops its input. A task that is not
    /// pending is left as it is and yields no job.
    pub fn start(&mut self, abort_requested: bool) -> (job: Option<EngineJob<B>>)
        ensures
            final(self).state() == after_start(old(self).state(), abort_requested),
            final(self).input() is None,
            job is Some <==> old(self).state() == TaskState::Pending && !abort_requested,
            job matches Some(job) ==> is_job_for(job, old(self).input().unwrap()),
    {
        let mut phase: Phase<B> = Phase::Cancelled;
        core::mem::swap(&mut self.phase, &mut phase);
        match phase {
            Phase::Pending(input) => {
                if abort_requested {
                    None
                } else {
                    self.phase = Phase::Running;
                    let languages = match input.prefered_langs {
                        Some(languages) => languages,
                        None => Vec::new(),
                    };
                    assert(languages.deep_view() =~= preferred_languages(input));
                    Some(
                        EngineJob {
                            image: input.image,
                            request: RecognitionRequest::new(input.accuracy, languages),
                        },
                    )
                }
            },
            other => {
                self.phase = other;
                None
            },
        }
    }

    /// Takes the engine's outcome for a running task and says what is
    /// delivered to the caller.
    ///
    /// If the abort was requested, the task is cancelled and nothing is
    /// delivered. Otherwise the outcome is concluded and delivered, and the
    /// task is completed or failed with it. A task that is not running is
    /// left as it is and delivers nothing.
    pub fn finish(&mut self, outcome: EngineOutcome, abort_requested: bool) -> (delivered: Option<
        Result<OcrResult, OcrError>,
    >)
        ensures
            final(self).state() == after_finish(
                old(self).state(),
                abort_requested,
                conclusion(outcome, MIN_CONFIDENCE_MILLIONTHS as nat) is Ok,
            ),
            final(self).input() == old(self).input(),
            delivered is Some <==> delivers(old(self).state(), abort_requested),
            delivered matches Some(result) ==> matches_conclusion(
                result,
                conclusion(outcome, MIN_CONFIDENCE_MILLIONTHS as nat),
            ),
    {
        match &self.phase {
            Phase::Running => {
                if abort_requested {
                    self.phase = Phase::Cancelled;
                    None
                } else {
                    let result = conclude(outcome);
                    match &result {
                        Ok(_) => {
                            self.phase = Phase::Completed;
                        },
                        Err(_) => {
                            self.phase = Phase::Failed;
                        },
                    }
                    Some(result)
                }
            },
            _ => None,
        }
    }
}

/// Accepts a recognition: the task is pending, and holds the image and the
/// options until it starts.
pub fn recognize<B>(
    image: ImageSource<B>,
    accuracy: OcrAccuracy,
    prefered_langs: Option<Vec<String>>,
) -> (task: RecognizeTask<B>)
    ensures
        task.state() == TaskState::Pending,
        task.input() == Some(TaskInput { image, accuracy, prefered_langs }),
{
    RecognizeTask { phase: Phase::Pending(TaskInput { image, accuracy, prefered_langs }) }
}

} // verus!
