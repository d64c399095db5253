use vstd::prelude::*;

use crate::error::ClipboardError;
use crate::memory::MemoryModel;
use crate::protocol::{
    next_phase, replay, stopped_at, success_of, Operation, Outcome, Phase, Reply, Session, PLAN_LEN,
};

verus! {

/// A session that has attached to the runtime finishes only by way of the
/// release step, and the release step is only ever reached from an attached
/// session: no attachment outlives its operation.
pub proof fn lemma_release_on_every_exit(s: Session, reply: Reply)
    requires
        s.wf(),
    ensures
        (next_phase(s.op, s.phase, reply) is Finished && !(s.phase is Finished)) ==> (
        s.phase is Releasing || (s.phase is Attaching && reply != Reply::Done)),
        next_phase(s.op, s.phase, reply) is Releasing ==> s.phase is Running,
{
}

proof fn lemma_replay_finished(op: Operation, o: Outcome, replies: Seq<Reply>)
    ensures
        replay(op, Phase::Finished(o), replies) == Phase::Finished(o),
    decreases replies.len(),
{
    if replies.len() > 0 {
        lemma_replay_finished(op, o, replies.drop_first());
    }
}

proof fn lemma_replay_running(op: Operation, i: usize, replies: Seq<Reply>)
    requires
        i < PLAN_LEN,
        replies.len() == PLAN_LEN - i + 1,
    ensures
        (forall|j: int| 0 <= j < PLAN_LEN - i ==> replies[j] == Reply::Done) ==> replay(
            op,
            Phase::Running(i),
            replies,
        ) == Phase::Finished(success_of(op)),
        forall|k: int|
            0 <= k < PLAN_LEN - i && replies[k] != Reply::Done && (forall|j: int|
                0 <= j < k ==> replies[j] == Reply::Done) ==> replay(op, Phase::Running(i), replies)
                == Phase::Finished(stopped_at(op, i + k, #[trigger] replies[k])),
    decreases PLAN_LEN - i,
{
    let rest = replies.drop_first();
    let after = next_phase(op, Phase::Running(i), replies[0]);
    assert(replay(op, Phase::Running(i), replies) == replay(op, after, rest));
    if replies[0] != Reply::Done {
        let o = stopped_at(op, i as int, replies[0]);
        assert(replay(op, after, rest) == replay(op, Phase::Finished(o), rest.drop_first()));
        lemma_replay_finished(op, o, rest.drop_first());
    } else if i + 1 < PLAN_LEN {
        lemma_replay_running(op, (i + 1) as usize, rest);
        assert forall|k: int|
            0 <= k < PLAN_LEN - i && replies[k] != Reply::Done && (forall|j: int|
                0 <= j < k ==> replies[j] == Reply::Done) implies replay(
            op,
            Phase::Running(i),
            replies,
        ) == Phase::Finished(stopped_at(op, i + k, #[trigger] replies[k])) by {
            assert(k > 0);
            assert(rest[k - 1] == replies[k]);
            assert forall|j: int| 0 <= j < k - 1 implies rest[j] == Reply::Done by {
                assert(rest[j] == replies[j + 1]);
            }
        }
        if forall|j: int| 0 <= j < PLAN_LEN - i ==> replies[j] == Reply::Done {
            assert forall|j: int| 0 <= j < PLAN_LEN - (i + 1) implies rest[j] == Reply::Done by {
                assert(rest[j] == replies[j + 1]);
            }
        }
    } else {
        let o = success_of(op);
        assert(rest.len() == 1);
        assert(replay(op, after, rest) == replay(op, Phase::Finished(o), rest.drop_first()));
        lemma_replay_finished(op, o, rest.drop_first());
    }
}

/// Whatever the bridge replies, a session asks for one attach, at most the
/// operation's plan, and a release, and then ends: with `RuntimeAttachError`
/// where the attach failed, with the outcome the first step not `Done`
/// stands for, or with the operation's success where every step was `Done`.
pub proof fn lemma_session_outcome(op: Operation, replies: Seq<Reply>)
    requires
        replies.len() == PLAN_LEN + 2,
    ensures
        replies[0] != Reply::Done ==> replay(op, Phase::Attaching, replies) == Phase::Finished(
            Outcome::Failed(ClipboardError::RuntimeAttachError),
        ),
        replies[0] == Reply::Done && (forall|j: int| 1 <= j <= PLAN_LEN ==> replies[j] == Reply::Done)
            ==> replay(op, Phase::Attaching, replies) == Phase::Finished(success_of(op)),
        forall|k: int|
            0 <= k < PLAN_LEN && replies[0] == Reply::Done && replies[k + 1] != Reply::Done && (
            forall|j: int| 1 <= j <= k ==> replies[j] == Reply::Done) ==> replay(
                op,
                Phase::Attaching,
                replies,
            ) == Phase::Finished(#[trigger] stopped_at(op, k, replies[k + 1])),
{
    let rest = replies.drop_first();
    let after = next_phase(op, Phase::Attaching, replies[0]);
    assert(replay(op, Phase::Attaching, replies) == replay(op, after, rest));
    if replies[0] != Reply::Done {
        lemma_replay_finished(op, Outcome::Failed(ClipboardError::RuntimeAttachError), rest);
    } else {
        lemma_replay_running(op, 0, rest);
        assert forall|k: int|
            0 <= k < PLAN_LEN && replies[0] == Reply::Done && replies[k + 1] != Reply::Done && (
            forall|j: int| 1 <= j <= k ==> replies[j] == Reply::Done) implies replay(
            op,
            Phase::Attaching,
            replies,
        ) == Phase::Finished(#[trigger] stopped_at(op, k, replies[k + 1])) by {
            assert(rest[k] == replies[k + 1]);
            assert forall|j: int| 0 <= j < k implies rest[j] == Reply::Done by {
                assert(rest[j] == replies[j + 1]);
            }
        }
        if forall|j: int| 1 <= j <= PLAN_LEN ==> replies[j] == Reply::Done {
            assert forall|j: int| 0 <= j < PLAN_LEN implies rest[j] == Reply::Done by {
                assert(rest[j] == replies[j + 1]);
            }
        }
    }
}

/// Writing any text to a working clipboard succeeds, and reading it back
/// gives exactly that text.
pub proof fn lemma_round_trip(m: MemoryModel, text: Seq<char>)
    requires
        m.healthy(),
    ensures
        m.write_result() == Ok::<(), ClipboardError>(()),
        m.after_write(text).read_result() == Ok::<Seq<char>, ClipboardError>(text),
{
}

/// Reading a working clipboard that holds no clip gives the empty text, not
/// an error.
pub proof fn lemma_empty_clipboard(m: MemoryModel)
    requires
        m.healthy(),
        m.clip is None,
    ensures
        m.read_result() == Ok::<Seq<char>, ClipboardError>(Seq::empty()),
{
}

/// Writing the same text twice and reading gives that text once: the second
/// write replaces the first.
pub proof fn lemma_write_twice(m: MemoryModel, text: Seq<char>)
    requires
        m.healthy(),
    ensures
        m.after_write(text).write_result() == Ok::<(), ClipboardError>(()),
        m.after_write(text).after_write(text).read_result() == Ok::<Seq<char>, ClipboardError>(
            text,
        ),
{
}

/// A read whose attach fails leaves nothing behind: the read after it
/// succeeds.
pub proof fn lemma_reads_independent(m: MemoryModel)
    requires
        m.fail_next_attach,
        !m.service_down,
    ensures
        m.read_result() == Err::<Seq<char>, ClipboardError>(ClipboardError::RuntimeAttachError),
        m.after_read().read_result() is Ok,
{
}

/// Where the clipboard service cannot be resolved, reading and writing both
/// fail with `ServiceUnavailable`, and a failed write leaves the clip as it
/// was.
pub proof fn lemma_service_failure(m: MemoryModel, text: Seq<char>)
    requires
        m.service_down,
        !m.fail_next_attach,
    ensures
        m.read_result() == Err::<Seq<char>, ClipboardError>(ClipboardError::ServiceUnavailable),
        m.write_result() == Err::<(), ClipboardError>(ClipboardError::ServiceUnavailable),
        m.after_write(text).clip == m.clip,
{
}

} // verus!
