use vstd::prelude::*;

use crate::error::ClipboardError;
use crate::protocol::{
    plan, text_result, unit_result, Operation, Outcome, Phase, Reply, Session, Step, PLAN_LEN,
};

verus! {

/// A bridge that answers a session's steps from memory instead of a runtime,
/// with a clipboard that holds at most one text, and failures that a caller
/// can inject.
pub struct MemoryClipboard {
    /// The primary clip's text; `None` while the clipboard is empty.
    pub clip: Option<String>,
    /// The next attach fails (once).
    pub fail_next_attach: bool,
    /// Resolving the clipboard service fails.
    pub service_down: bool,
}

/// The state of a `MemoryClipboard`.
pub struct MemoryModel {
    pub clip: Option<Seq<char>>,
    pub fail_next_attach: bool,
    pub service_down: bool,
}

impl View for MemoryClipboard {
    type V = MemoryModel;

    open spec fn view(&self) -> MemoryModel {
        MemoryModel {
            clip: match self.clip {
                Some(s) => Some(s@),
                None => None,
            },
            fail_next_attach: self.fail_next_attach,
            service_down: self.service_down,
        }
    }
}

impl MemoryModel {
    /// Attaching and resolving the service both work.
    pub open spec fn healthy(self) -> bool {
        !self.fail_next_attach && !self.service_down
    }

    /// The bridge's reply to `step`.
    pub open spec fn reply_to(self, step: Step) -> Reply {
        if step == Step::Attach && self.fail_next_attach {
            Reply::Failed
        } else if step == Step::GetService && self.service_down {
            Reply::Failed
        } else if step == Step::GetPrimaryClip && self.clip is None {
            Reply::Null
        } else {
            Reply::Done
        }
    }

    /// What reading the clipboard returns.
    pub open spec fn read_result(self) -> Result<Seq<char>, ClipboardError> {
        if self.fail_next_attach {
            Err(ClipboardError::RuntimeAttachError)
        } else if self.service_down {
            Err(ClipboardError::ServiceUnavailable)
        } else {
            match self.clip {
                Some(t) => Ok(t),
                None => Ok(Seq::empty()),
            }
        }
    }

    /// The state after a read: the injected attach failure, if any, is used up.
    pub open spec fn after_read(self) -> MemoryModel {
        MemoryModel { fail_next_attach: false, ..self }
    }

    /// What writing `text` returns.
    pub open spec fn write_result(self) -> Result<(), ClipboardError> {
        if self.fail_next_attach {
            Err(ClipboardError::RuntimeAttachError)
        } else if self.service_down {
            Err(ClipboardError::ServiceUnavailable)
        } else {
            Ok(())
        }
    }

    /// The state after writing `text`: it is the clip where the write worked.
    pub open spec fn after_write(self, text: Seq<char>) -> MemoryModel {
        MemoryModel {
            clip: if self.healthy() {
                Some(text)
            } else {
                self.clip
            },
            fail_next_attach: false,
            ..self
        }
    }
}

/// A read result with its text as a sequence of characters.
pub open spec fn text_view(r: Result<String, ClipboardError>) -> Result<Seq<char>, ClipboardError> {
    match r {
        Ok(s) => Ok(s@),
        Err(e) => Err(e),
    }
}

/// The outcome a read session reaches against the model.
pub open spec fn read_outcome(m: MemoryModel) -> Outcome {
    if m.fail_next_attach {
        Outcome::Failed(ClipboardError::RuntimeAttachError)
    } else if m.service_down {
        Outcome::Failed(ClipboardError::ServiceUnavailable)
    } else if m.clip is None {
        Outcome::Empty
    } else {
        Outcome::TextRead
    }
}

/// The outcome a write session reaches against the model.
pub open spec fn write_outcome(m: MemoryModel) -> Outcome {
    if m.fail_next_attach {
        Outcome::Failed(ClipboardError::RuntimeAttachError)
    } else if m.service_down {
        Outcome::Failed(ClipboardError::ServiceUnavailable)
    } else {
        Outcome::Installed
    }
}

proof fn lemma_read_plan()
    ensures
        plan(Operation::GetText).len() == PLAN_LEN,
        plan(Operation::GetText)[0] == Step::FindContextClass,
        plan(Operation::GetText)[1] == Step::ReadServiceName,
        plan(Operation::GetText)[2] == Step::GetService,
        plan(Operation::GetText)[3] == Step::GetPrimaryClip,
        plan(Operation::GetText)[4] == Step::GetFirstItem,
        plan(Operation::GetText)[5] == Step::GetItemText,
        plan(Operation::GetText)[6] == Step::TextToString,
        plan(Operation::GetText)[7] == Step::ReadString,
{
}

proof fn lemma_write_plan()
    ensures
        plan(Operation::SetText).len() == PLAN_LEN,
        plan(Operation::SetText)[0] == Step::FindContextClass,
        plan(Operation::SetText)[1] == Step::ReadServiceName,
        plan(Operation::SetText)[2] == Step::GetService,
        plan(Operation::SetText)[3] == Step::FindClipClass,
        plan(Operation::SetText)[4] == Step::NewLabel,
        plan(Operation::SetText)[5] == Step::NewContent,
        plan(Operation::SetText)[6] == Step::NewPlainText,
        plan(Operation::SetText)[7] == Step::SetPrimaryClip,
{
}

impl MemoryClipboard {
    /// An empty clipboard on which nothing fails.
    pub fn new() -> (r: MemoryClipboard)
        ensures
            r@.clip is None,
            r@.healthy(),
    {
        MemoryClipboard { clip: None, fail_next_attach: false, service_down: false }
    }

    /// Answers `step`. An attach uses up the injected attach failure.
    fn answer(&mut self, step: Step) -> (r: Reply)
        ensures
            r == old(self)@.reply_to(step),
            final(self)@ == (if step == Step::Attach {
                old(self)@.after_read()
            } else {
                old(self)@
            }),
    {
        match step {
            Step::Attach => {
                let failed = self.fail_next_attach;
                self.fail_next_attach = false;
                if failed {
                    Reply::Failed
                } else {
                    Reply::Done
                }
            },
            Step::GetService => if self.service_down {
                Reply::Failed
            } else {
                Reply::Done
            },
            Step::GetPrimaryClip => if self.clip.is_none() {
                Reply::Null
            } else {
                Reply::Done
            },
            _ => Reply::Done,
        }
    }

    /// Reads the clipboard by running a read session against this bridge.
    pub fn get_text(&mut self) -> (r: Result<String, ClipboardError>)
        ensures
            text_view(r) == old(self)@.read_result(),
            final(self)@ == old(self)@.after_read(),
    {
        let ghost m = self@;
        let mut session = Session::start(Operation::GetText);
        let mut read: Option<String> = None;
        while !session.is_finished()
            invariant
                session.wf(),
                session.op == Operation::GetText,
                session.phase is Attaching ==> self@ == m && read is None,
                !(session.phase is Attaching) ==> self@ == m.after_read(),
                session.phase matches Phase::Running(i) ==> {
                    &&& !m.fail_next_attach
                    &&& m.service_down ==> i <= 2
                    &&& m.clip is None ==> i <= 3
                    &&& read is None
                },
                session.phase matches Phase::Releasing(o) ==> o == read_outcome(m),
                session.phase matches Phase::Finished(o) ==> o == read_outcome(m),
                read matches Some(t) ==> m.clip == Some(t@),
                read is None ==> !(session.phase matches Phase::Releasing(Outcome::TextRead)),
                read is None ==> !(session.phase matches Phase::Finished(Outcome::TextRead)),
            decreases session.remaining(),
        {
            proof {
                lemma_read_plan();
            }
            let step = session.step();
            let reply = self.answer(step);
            if step == Step::ReadString {
                if let Some(t) = &self.clip {
                    read = Some(t.clone());
                }
            }
            session.advance(reply);
        }
        let outcome = session.outcome().unwrap();
        text_result(outcome, read)
    }

    /// Writes `text` to the clipboard by running a write session against this
    /// bridge.
    pub fn set_text(&mut self, text: String) -> (r: Result<(), ClipboardError>)
        ensures
            r == old(self)@.write_result(),
            final(self)@ == old(self)@.after_write(text@),
    {
        let ghost m = self@;
        let mut session = Session::start(Operation::SetText);
        let mut staged: Option<String> = None;
        while !session.is_finished()
            invariant
                session.wf(),
                session.op == Operation::SetText,
                session.phase is Attaching ==> self@ == m,
                session.phase matches Phase::Running(i) ==> {
                    &&& !m.fail_next_attach
                    &&& self@ == m.after_read()
                    &&& m.service_down ==> i <= 2
                    &&& i > 5 ==> (staged matches Some(t) && t@ == text@)
                },
                session.phase matches Phase::Releasing(o) ==> o == write_outcome(m),
                session.phase matches Phase::Finished(o) ==> o == write_outcome(m),
                (session.phase is Releasing || session.phase is Finished) ==> self@ == m.after_write(text@),
            decreases session.remaining(),
        {
            proof {
                lemma_write_plan();
            }
            let step = session.step();
            let reply = self.answer(step);
            if step == Step::NewContent {
                staged = Some(text.clone());
            } else if step == Step::SetPrimaryClip {
                if let Some(t) = &staged {
                    self.clip = Some(t.clone());
                }
            }
            session.advance(reply);
        }
        let outcome = session.outcome().unwrap();
        unit_result(outcome)
    }
}

} // verus!
