use vstd::prelude::*;
use vstd::string::StringExecFns;
use vstd::utf8::encode_utf8;
use crate::passage::{push_range, Passage, PassageView};
use crate::prompt::substitute;
use crate::replace::Replace;

verus! {

/// Where a run of a job stands.
pub enum Stage {
    /// Looking for the next passage.
    Searching,
    /// Waiting for the replacement of `passage`, asked for with `prompt`.
    Generating { passage: Passage, prompt: Vec<u8> },
    /// Waiting for the spliced text to be written to the passage's file.
    Applying { passage: Passage },
    /// Waiting for the check command to exit.
    Validating { passage: Passage },
    /// Waiting for the commit command to exit.
    Committing { passage: Passage },
    /// No passage is left: the run succeeded.
    Done,
    /// The run stopped on an error.
    Failed,
}

/// What the surroundings report after carrying out an action.
pub enum Event {
    /// The search ended, with the first passage found if any.
    Located(Option<Passage>),
    /// The completion service answered with this text.
    Generated(Vec<u8>),
    /// The completion service failed; `http` tells whether the failure was an
    /// HTTP error, whose `message` then holds the status.
    CompletionFailed { http: bool, message: String },
    /// The spliced text was written.
    Written,
    /// The check command exited, successfully or not.
    CheckExited(bool),
    /// The commit command exited, successfully or not.
    CommitExited(bool),
}

/// Why a run stopped.
pub enum Failure {
    /// The completion service failed for a reason other than overload.
    Provider(String),
    /// The check command failed; the rewritten file stays on disk.
    CheckFailed,
    /// The commit command failed; the rewritten file stays uncommitted.
    CommitFailed,
    /// An event came that the stage does not wait for.
    OutOfOrder,
}

/// What the surroundings are to do next.
pub enum Action {
    /// Walk the tree and report the first passage.
    Locate,
    /// Ask the completion service with this prompt.
    Complete(Vec<u8>),
    /// Overwrite the file at `path` with `content`.
    Write { path: String, content: Vec<u8> },
    /// Run the check command in the job's root.
    RunCheck,
    /// Commit exactly the file at `path`, with the job's message.
    Commit { path: String },
    /// Stop with success.
    Finish,
    /// Stop with this error.
    Fail(Failure),
}

/// What a stage is, over views.
pub ghost enum StageView {
    Searching,
    Generating { passage: PassageView, prompt: Seq<u8> },
    Applying { passage: PassageView },
    Validating { passage: PassageView },
    Committing { passage: PassageView },
    Done,
    Failed,
}

/// What an event is, over views.
pub ghost enum EventView {
    Located(Option<PassageView>),
    Generated(Seq<u8>),
    CompletionFailed { http: bool, message: Seq<char> },
    Written,
    CheckExited(bool),
    CommitExited(bool),
}

/// What a failure is, over views.
pub ghost enum FailureView {
    Provider(Seq<char>),
    CheckFailed,
    CommitFailed,
    OutOfOrder,
}

/// What an action is, over views.
pub ghost enum ActionView {
    Locate,
    Complete(Seq<u8>),
    Write { path: Seq<char>, content: Seq<u8> },
    RunCheck,
    Commit { path: Seq<char> },
    Finish,
    Fail(FailureView),
}

impl View for Stage {
    type V = StageView;

    open spec fn view(&self) -> StageView {
        match self {
            Stage::Searching => StageView::Searching,
            Stage::Generating { passage, prompt } => StageView::Generating {
                passage: passage@,
                prompt: prompt@,
            },
            Stage::Applying { passage } => StageView::Applying { passage: passage@ },
            Stage::Validating { passage } => StageView::Validating { passage: passage@ },
            Stage::Committing { passage } => StageView::Committing { passage: passage@ },
            Stage::Done => StageView::Done,
            Stage::Failed => StageView::Failed,
        }
    }
}

impl View for Event {
    type V = EventView;

    open spec fn view(&self) -> EventView {
        match self {
            Event::Located(found) => EventView::Located(
                match found {
                    Some(p) => Some(p@),
                    None => None,
                },
            ),
            Event::Generated(text) => EventView::Generated(text@),
            Event::CompletionFailed { http, message } => EventView::CompletionFailed {
                http: *http,
                message: message@,
            },
            Event::Written => EventView::Written,
            Event::CheckExited(ok) => EventView::CheckExited(*ok),
            Event::CommitExited(ok) => EventView::CommitExited(*ok),
        }
    }
}

impl View for Failure {
    type V = FailureView;

    open spec fn view(&self) -> FailureView {
        match self {
            Failure::Provider(m) => FailureView::Provider(m@),
            Failure::CheckFailed => FailureView::CheckFailed,
            Failure::CommitFailed => FailureView::CommitFailed,
            Failure::OutOfOrder => FailureView::OutOfOrder,
        }
    }
}

impl View for Action {
    type V = ActionView;

    open spec fn view(&self) -> ActionView {
        match self {
            Action::Locate => ActionView::Locate,
            Action::Complete(prompt) => ActionView::Complete(prompt@),
            Action::Write { path, content } => ActionView::Write {
                path: path@,
                content: content@,
            },
            Action::RunCheck => ActionView::RunCheck,
            Action::Commit { path } => ActionView::Commit { path: path@ },
            Action::Finish => ActionView::Finish,
            Action::Fail(f) => ActionView::Fail(f@),
        }
    }
}

/// The status code with which the completion service reports overload.
pub open spec fn overload_code() -> Seq<char> {
    seq!['5', '2', '9']
}

/// Whether the overload code occurs in `message`.
pub open spec fn mentions_overload(message: Seq<char>) -> bool {
    exists|i: int|
        0 <= i && i + 3 <= message.len() && #[trigger] message.subrange(i, i + 3)
            == overload_code()
}

/// Whether a failure of the completion service is the transient overload,
/// which is retried unchanged, rather than a fatal error.
pub open spec fn overloaded(http: bool, message: Seq<char>) -> bool {
    http && mentions_overload(message)
}

/// The state machine of a run: the next stage and the action to carry out,
/// given the stage, the event that came, and the bytes of the prompt template.
pub open spec fn next(template: Seq<u8>, stage: StageView, event: EventView) -> (StageView, ActionView) {
    match (stage, event) {
        (StageView::Searching, EventView::Located(None)) => (StageView::Done, ActionView::Finish),
        (StageView::Searching, EventView::Located(Some(p))) => {
            let prompt = substitute(template, p.matched());
            (StageView::Generating { passage: p, prompt }, ActionView::Complete(prompt))
        },
        (StageView::Generating { passage, prompt }, EventView::Generated(r)) => (
            StageView::Applying { passage },
            ActionView::Write { path: passage.path, content: passage.spliced(r) },
        ),
        (StageView::Generating { passage, prompt }, EventView::CompletionFailed { http, message }) => {
            if overloaded(http, message) {
                (StageView::Generating { passage, prompt }, ActionView::Complete(prompt))
            } else {
                (StageView::Failed, ActionView::Fail(FailureView::Provider(message)))
            }
        },
        (StageView::Applying { passage }, EventView::Written) => (
            StageView::Validating { passage },
            ActionView::RunCheck,
        ),
        (StageView::Validating { passage }, EventView::CheckExited(ok)) => {
            if ok {
                (StageView::Committing { passage }, ActionView::Commit { path: passage.path })
            } else {
                (StageView::Failed, ActionView::Fail(FailureView::CheckFailed))
            }
        },
        (StageView::Committing { passage }, EventView::CommitExited(ok)) => {
            if ok {
                (StageView::Searching, ActionView::Locate)
            } else {
                (StageView::Failed, ActionView::Fail(FailureView::CommitFailed))
            }
        },
        _ => (StageView::Failed, ActionView::Fail(FailureView::OutOfOrder)),
    }
}

/// Whether a completion failure is the transient overload.
pub fn is_overloaded(http: bool, message: &String) -> (r: bool)
    ensures
        r == overloaded(http, message@),
{
    let s = message.as_str();
    let n = s.unicode_len();
    let mut i: usize = 0;
    if !http {
        return false;
    }
    while n >= 3 && i <= n - 3
        invariant
            http,
            n == s@.len(),
            s@ == message@,
            i <= n,
            forall|j: int| 0 <= j < i ==> #[trigger] s@.subrange(j, j + 3) != overload_code(),
        decreases n - i,
    {
        if s.get_char(i) == '5' && s.get_char(i + 1) == '2' && s.get_char(i + 2) == '9' {
            assert(s@.subrange(i as int, i + 3) =~= overload_code());
            assert(message@.subrange(i as int, i + 3) == overload_code());
            return true;
        }
        assert(s@.subrange(i as int, i + 3) != overload_code()) by {
            if s@.subrange(i as int, i + 3) == overload_code() {
                assert(s@.subrange(i as int, i + 3)[0] == s@[i as int]);
                assert(s@.subrange(i as int, i + 3)[1] == s@[i + 1]);
                assert(s@.subrange(i as int, i + 3)[2] == s@[i + 2]);
            }
        }
        i = i + 1;
    }
    assert forall|j: int| 0 <= j && j + 3 <= message@.len() implies #[trigger] message@.subrange(
        j,
        j + 3,
    ) != overload_code() by {
        assert(j < i);
    }
    false
}

/// A copy of `b`.
fn copy_bytes(b: &Vec<u8>) -> (r: Vec<u8>)
    ensures
        r@ == b@,
{
    let mut out: Vec<u8> = Vec::new();
    push_range(&mut out, b, 0, b.len());
    assert(b@.subrange(0, b@.len() as int) =~= b@);
    out
}

impl Replace {
    /// The stage a run starts in, and its first action.
    pub fn start() -> (r: (Stage, Action))
        ensures
            r.0@ == StageView::Searching,
            r.1@ == ActionView::Locate,
    {
        (Stage::Searching, Action::Locate)
    }

    /// One transition of a run: from `stage`, on `event`, to the next stage
    /// and the action to carry out.
    pub fn step(&self, stage: Stage, event: Event) -> (r: (Stage, Action))
        ensures
            (r.0@, r.1@) == next(encode_utf8(self.prompt_template()@), stage@, event@),
    {
        match (stage, event) {
            (Stage::Searching, Event::Located(None)) => (Stage::Done, Action::Finish),
            (Stage::Searching, Event::Located(Some(passage))) => {
                let prompt = self.prompt(&passage);
                let ask = copy_bytes(&prompt);
                (Stage::Generating { passage, prompt }, Action::Complete(ask))
            },
            (Stage::Generating { passage, prompt }, Event::Generated(r)) => {
                let content = passage.replace(&r);
                let path = <String as StringExecFns>::from_str(passage.path().as_str());
                (Stage::Applying { passage }, Action::Write { path, content })
            },
            (Stage::Generating { passage, prompt }, Event::CompletionFailed { http, message }) => {
                if is_overloaded(http, &message) {
                    let ask = copy_bytes(&prompt);
                    (Stage::Generating { passage, prompt }, Action::Complete(ask))
                } else {
                    (Stage::Failed, Action::Fail(Failure::Provider(message)))
                }
            },
            (Stage::Applying { passage }, Event::Written) => (
                Stage::Validating { passage },
                Action::RunCheck,
            ),
            (Stage::Validating { passage }, Event::CheckExited(ok)) => {
                if ok {
                    let path = <String as StringExecFns>::from_str(passage.path().as_str());
                    (Stage::Committing { passage }, Action::Commit { path })
                } else {
                    (Stage::Failed, Action::Fail(Failure::CheckFailed))
                }
            },
            (Stage::Committing { passage }, Event::CommitExited(ok)) => {
                if ok {
                    (Stage::Searching, Action::Locate)
                } else {
                    (Stage::Failed, Action::Fail(Failure::CommitFailed))
                }
            },
            _ => (Stage::Failed, Action::Fail(Failure::OutOfOrder)),
        }
    }
}

} // verus!
