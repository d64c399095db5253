use vstd::prelude::*;

use crate::error::ClipboardError;

verus! {

/// The two operations a session can carry out.
#[derive(Clone, Copy, Debug, PartialEq, Eq, Structural)]
pub enum Operation {
    GetText,
    SetText,
}

/// One call that the bridge is asked to make next.
#[derive(Clone, Copy, Debug, PartialEq, Eq, Structural)]
pub enum Step {
    /// Attach the calling thread to the managed runtime.
    Attach,
    /// Look up the class that names the platform's services.
    FindContextClass,
    /// Read that class's clipboard-service-name constant.
    ReadServiceName,
    /// Ask the ambient context for the service of that name.
    GetService,
    /// Ask the service for its primary clip; null means the clipboard is empty.
    GetPrimaryClip,
    /// Take item 0 of the clip.
    GetFirstItem,
    /// Take the item's text.
    GetItemText,
    /// Turn that text into the runtime's string type.
    TextToString,
    /// Copy the runtime string out as UTF-8 and keep it.
    ReadString,
    /// Look up the clip class.
    FindClipClass,
    /// Make the runtime string for the clip's label.
    NewLabel,
    /// Make the runtime string for the caller's text.
    NewContent,
    /// Build a plain-text clip from the label and the content.
    NewPlainText,
    /// Install that clip as the service's primary clip.
    SetPrimaryClip,
    /// Release the attachment that `Attach` made.
    Release,
    /// Nothing is left to do: the outcome is known.
    Finished,
}

/// What the bridge reports back for the step it was asked to make.
#[derive(Clone, Copy, Debug, PartialEq, Eq, Structural)]
pub enum Reply {
    /// The call completed and, where it returns a handle, the handle is not null.
    Done,
    /// The call completed but returned a null handle.
    Null,
    /// The call failed or raised an exception in the runtime.
    Failed,
}

/// How a session ended.
#[derive(Clone, Copy, Debug, PartialEq, Eq, Structural)]
pub enum Outcome {
    /// The clipboard held no clip: reading it gives the empty string.
    Empty,
    /// The text was read by the `ReadString` step.
    TextRead,
    /// The new clip was installed.
    Installed,
    Failed(ClipboardError),
}

/// Where a session stands.
#[derive(Clone, Copy, Debug, PartialEq, Eq, Structural)]
pub enum Phase {
    Attaching,
    /// Attached; the step at this index of the plan is next.
    Running(usize),
    /// The outcome is known; the attachment is still to be released.
    Releasing(Outcome),
    Finished(Outcome),
}

/// Number of steps that each operation makes between attach and release.
pub const PLAN_LEN: usize = 8;

/// The calls an operation makes while attached, in order.
pub open spec fn plan(op: Operation) -> Seq<Step> {
    match op {
        Operation::GetText => seq![
            Step::FindContextClass,
            Step::ReadServiceName,
            Step::GetService,
            Step::GetPrimaryClip,
            Step::GetFirstItem,
            Step::GetItemText,
            Step::TextToString,
            Step::ReadString,
        ],
        Operation::SetText => seq![
            Step::FindContextClass,
            Step::ReadServiceName,
            Step::GetService,
            Step::FindClipClass,
            Step::NewLabel,
            Step::NewContent,
            Step::NewPlainText,
            Step::SetPrimaryClip,
        ],
    }
}

/// The error that a failed (or null) reply to `step` stands for.
pub open spec fn failure_of(step: Step) -> ClipboardError {
    match step {
        Step::Attach => ClipboardError::RuntimeAttachError,
        Step::GetItemText | Step::TextToString | Step::ReadString => ClipboardError::EncodingError,
        Step::NewLabel | Step::NewContent | Step::NewPlainText => ClipboardError::ClipConstructionError,
        Step::SetPrimaryClip => ClipboardError::InstallError,
        _ => ClipboardError::ServiceUnavailable,
    }
}

/// The outcome of an operation whose every step succeeded.
pub open spec fn success_of(op: Operation) -> Outcome {
    match op {
        Operation::GetText => Outcome::TextRead,
        Operation::SetText => Outcome::Installed,
    }
}

/// The outcome once the plan's step at index `i` has answered `reply`
/// with something other than `Done`.
pub open spec fn stopped_at(op: Operation, i: int, reply: Reply) -> Outcome {
    if reply == Reply::Null && plan(op)[i] == Step::GetPrimaryClip {
        Outcome::Empty
    } else {
        Outcome::Failed(failure_of(plan(op)[i]))
    }
}

/// The phase that follows `phase` when the current step answers `reply`.
pub open spec fn next_phase(op: Operation, phase: Phase, reply: Reply) -> Phase {
    match phase {
        Phase::Attaching => if reply == Reply::Done {
            Phase::Running(0)
        } else {
            Phase::Finished(Outcome::Failed(ClipboardError::RuntimeAttachError))
        },
        Phase::Running(i) => if reply != Reply::Done {
            Phase::Releasing(stopped_at(op, i as int, reply))
        } else if i + 1 < PLAN_LEN {
            Phase::Running((i + 1) as usize)
        } else {
            Phase::Releasing(success_of(op))
        },
        Phase::Releasing(o) => Phase::Finished(o),
        Phase::Finished(o) => Phase::Finished(o),
    }
}

/// The phase reached from `phase` when the steps asked for answer `replies`,
/// one reply each, in order.
pub open spec fn replay(op: Operation, phase: Phase, replies: Seq<Reply>) -> Phase
    decreases replies.len(),
{
    if replies.len() == 0 {
        phase
    } else {
        replay(op, next_phase(op, phase, replies[0]), replies.drop_first())
    }
}

/// One run of an operation against the runtime: attach, the operation's
/// plan, release. Each session is independent of every other.
#[derive(Clone, Copy, Debug, PartialEq, Eq, Structural)]
pub struct Session {
    pub op: Operation,
    pub phase: Phase,
}

impl Session {
    pub open spec fn wf(self) -> bool {
        self.phase matches Phase::Running(i) ==> i < PLAN_LEN
    }

    /// The call this session asks for now.
    pub open spec fn current_step(self) -> Step {
        match self.phase {
            Phase::Attaching => Step::Attach,
            Phase::Running(i) => plan(self.op)[i as int],
            Phase::Releasing(_) => Step::Release,
            Phase::Finished(_) => Step::Finished,
        }
    }

    /// Steps left at most before the session is finished.
    pub open spec fn remaining(self) -> nat {
        match self.phase {
            Phase::Attaching => (PLAN_LEN + 2) as nat,
            Phase::Running(i) => (PLAN_LEN + 1 - i) as nat,
            Phase::Releasing(_) => 1,
            Phase::Finished(_) => 0,
        }
    }

    pub fn start(op: Operation) -> (s: Session)
        ensures
            s.wf(),
            s.op == op,
            s.phase == Phase::Attaching,
    {
        Session { op, phase: Phase::Attaching }
    }

    pub fn step(&self) -> (r: Step)
        requires
            self.wf(),
        ensures
            r == self.current_step(),
    {
        match self.phase {
            Phase::Attaching => Step::Attach,
            Phase::Running(i) => plan_step(self.op, i),
            Phase::Releasing(_) => Step::Release,
            Phase::Finished(_) => Step::Finished,
        }
    }

    /// Takes the bridge's reply to the current step.
    pub fn advance(&mut self, reply: Reply)
        requires
            old(self).wf(),
        ensures
            final(self).wf(),
            final(self).op == old(self).op,
            final(self).phase == next_phase(old(self).op, old(self).phase, reply),
            !(old(self).phase is Finished) ==> final(self).remaining() < old(self).remaining(),
    {
        let next = match self.phase {
            Phase::Attaching => if reply == Reply::Done {
                Phase::Running(0)
            } else {
                Phase::Finished(Outcome::Failed(ClipboardError::RuntimeAttachError))
            },
            Phase::Running(i) => if reply != Reply::Done {
                let step = plan_step(self.op, i);
                if reply == Reply::Null && step == Step::GetPrimaryClip {
                    Phase::Releasing(Outcome::Empty)
                } else {
                    Phase::Releasing(Outcome::Failed(step_failure(step)))
                }
            } else if i + 1 < PLAN_LEN {
                Phase::Running(i + 1)
            } else {
                match self.op {
                    Operation::GetText => Phase::Releasing(Outcome::TextRead),
                    Operation::SetText => Phase::Releasing(Outcome::Installed),
                }
            },
            Phase::Releasing(o) => Phase::Finished(o),
            Phase::Finished(o) => Phase::Finished(o),
        };
        self.phase = next;
    }

    pub fn is_finished(&self) -> (r: bool)
        ensures
            r == self.phase is Finished,
    {
        matches!(self.phase, Phase::Finished(_))
    }

    /// The outcome, once the session is finished.
    pub fn outcome(&self) -> (r: Option<Outcome>)
        ensures
            r == (match self.phase {
                Phase::Finished(o) => Some(o),
                _ => None,
            }),
    {
        match self.phase {
            Phase::Finished(o) => Some(o),
            _ => None,
        }
    }
}

/// The step at index `i` of an operation's plan.
pub fn plan_step(op: Operation, i: usize) -> (r: Step)
    requires
        i < PLAN_LEN,
    ensures
        r == plan(op)[i as int],
{
    let shared = [Step::FindContextClass, Step::ReadServiceName, Step::GetService];
    if i < 3 {
        shared[i]
    } else {
        match op {
            Operation::GetText => [
                Step::GetPrimaryClip,
                Step::GetFirstItem,
                Step::GetItemText,
                Step::TextToString,
                Step::ReadString,
            ][i - 3],
            Operation::SetText => [
                Step::FindClipClass,
                Step::NewLabel,
                Step::NewContent,
                Step::NewPlainText,
                Step::SetPrimaryClip,
            ][i - 3],
        }
    }
}

/// The error that a failed reply to `step` stands for.
pub fn step_failure(step: Step) -> (r: ClipboardError)
    ensures
        r == failure_of(step),
{
    match step {
        Step::Attach => ClipboardError::RuntimeAttachError,
        Step::GetItemText | Step::TextToString | Step::ReadString => ClipboardError::EncodingError,
        Step::NewLabel | Step::NewContent | Step::NewPlainText => ClipboardError::ClipConstructionError,
        Step::SetPrimaryClip => ClipboardError::InstallError,
        _ => ClipboardError::ServiceUnavailable,
    }
}

/// The text a finished read session gives its caller: the empty string for an
/// empty clipboard, the text that `ReadString` copied out otherwise, and the
/// session's error where it failed. Where no text was copied out although
/// the session says so, the text could not be converted.
pub fn text_result(outcome: Outcome, read: Option<String>) -> (r: Result<String, ClipboardError>)
    ensures
        match outcome {
            Outcome::Empty => r matches Ok(s) && s@ == Seq::<char>::empty(),
            Outcome::Failed(e) => r == Err::<String, ClipboardError>(e),
            _ => match read {
                Some(t) => r == Ok::<String, ClipboardError>(t),
                None => r == Err::<String, ClipboardError>(ClipboardError::EncodingError),
            },
        },
{
    match outcome {
        Outcome::Empty => Ok(String::new()),
        Outcome::Failed(e) => Err(e),
        _ => match read {
            Some(t) => Ok(t),
            None => Err(ClipboardError::EncodingError),
        },
    }
}

/// What a finished write session gives its caller.
pub fn unit_result(outcome: Outcome) -> (r: Result<(), ClipboardError>)
    ensures
        r == (match outcome {
            Outcome::Failed(e) => Err(e),
            _ => Ok(()),
        }),
{
    match outcome {
        Outcome::Failed(e) => Err(e),
        _ => Ok(()),
    }
}

} // verus!
