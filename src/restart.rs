//! The protocol that frees a file locked by another process, through the
//! operating system's restart manager.
//!
//! The coordinator decides; its caller talks to the restart manager. The
//! caller starts with the action that `LockRelease::begin` returns, performs
//! each action, and hands the reply back to `LockRelease::on_reply`, until
//! the action is `Finish`. The session is ended on every path that started
//! it, once.
use vstd::prelude::*;

verus! {

/// The restart manager's status for success.
pub const ERROR_SUCCESS: u32 = 0;

/// The restart manager's status for a holder list longer than the buffer
/// given; the list query counts it as success.
pub const ERROR_MORE_DATA: u32 = 234;

/// What the caller is to do next.
#[derive(Debug, Clone, Copy, PartialEq, Eq, Structural)]
pub enum RmAction {
    /// Start a restart-manager session.
    StartSession,
    /// Register the locked file as a resource of the session.
    RegisterResource,
    /// Ask for the processes that hold the resource.
    ListHolders,
    /// Shut down the holders by force.
    ForceShutdown,
    /// End the session.
    EndSession,
    /// Stop: whether the lock is released (or was never held).
    Finish(bool),
}

/// Where the protocol stands.
#[derive(Debug, Clone, Copy, PartialEq, Eq, Structural)]
pub enum RmPhase {
    Starting,
    Registering,
    Listing,
    ShuttingDown,
    Closing(bool),
    Done(bool),
}

/// The restart manager's answer to the last action: its status and, for
/// the holder list, how many processes hold the resource.
#[derive(Debug, Clone, Copy, PartialEq, Eq, Structural)]
pub struct RmReply {
    pub status: u32,
    pub holders: u32,
}

/// Whether a session is open in this phase.
pub open spec fn session_open(p: RmPhase) -> bool {
    p == RmPhase::Registering || p == RmPhase::Listing || p == RmPhase::ShuttingDown
}

/// One transition: the next phase and the next action.
pub open spec fn rm_step(p: RmPhase, reply: RmReply) -> (RmPhase, RmAction) {
    let ok = reply.status == ERROR_SUCCESS;
    match p {
        RmPhase::Starting => if ok {
            (RmPhase::Registering, RmAction::RegisterResource)
        } else {
            (RmPhase::Done(false), RmAction::Finish(false))
        },
        RmPhase::Registering => if ok {
            (RmPhase::Listing, RmAction::ListHolders)
        } else {
            (RmPhase::Closing(false), RmAction::EndSession)
        },
        RmPhase::Listing => if ok || reply.status == ERROR_MORE_DATA {
            if reply.holders == 0 {
                (RmPhase::Closing(true), RmAction::EndSession)
            } else {
                (RmPhase::ShuttingDown, RmAction::ForceShutdown)
            }
        } else {
            (RmPhase::Closing(false), RmAction::EndSession)
        },
        RmPhase::ShuttingDown => if ok {
            (RmPhase::Closing(true), RmAction::EndSession)
        } else {
            (RmPhase::Closing(false), RmAction::EndSession)
        },
        RmPhase::Closing(released) => (RmPhase::Done(released), RmAction::Finish(released)),
        RmPhase::Done(released) => (RmPhase::Done(released), RmAction::Finish(released)),
    }
}

/// The actions taken from phase `p` in answer to a run of replies.
pub open spec fn rm_run(p: RmPhase, replies: Seq<RmReply>) -> Seq<RmAction>
    decreases replies.len(),
{
    if replies.len() == 0 {
        Seq::empty()
    } else {
        let (q, a) = rm_step(p, replies[0]);
        seq![a] + rm_run(q, replies.drop_first())
    }
}

/// How many times a run of actions ends the session.
pub open spec fn end_count(actions: Seq<RmAction>) -> nat
    decreases actions.len(),
{
    if actions.len() == 0 {
        0
    } else {
        (if actions[0] == RmAction::EndSession {
            1nat
        } else {
            0nat
        }) + end_count(actions.drop_first())
    }
}

/// Whether a run of actions has finished.
pub open spec fn finished(actions: Seq<RmAction>) -> bool {
    exists|i: int| 0 <= i < actions.len() && actions[i] is Finish
}

/// The coordinator of one lock release.
pub struct LockRelease {
    pub phase: RmPhase,
}

impl LockRelease {
    /// A new coordinator and its first action, which starts the session.
    pub fn begin() -> (r: (LockRelease, RmAction))
        ensures
            r.0.phase == RmPhase::Starting,
            r.1 == RmAction::StartSession,
    {
        (LockRelease { phase: RmPhase::Starting }, RmAction::StartSession)
    }

    /// Takes the reply to the last action and returns the next action.
    pub fn on_reply(&mut self, reply: RmReply) -> (r: RmAction)
        ensures
            (final(self).phase, r) == rm_step(old(self).phase, reply),
    {
        let ok = reply.status == ERROR_SUCCESS;
        let (next, action) = match self.phase {
            RmPhase::Starting => if ok {
                (RmPhase::Registering, RmAction::RegisterResource)
            } else {
                (RmPhase::Done(false), RmAction::Finish(false))
            },
            RmPhase::Registering => if ok {
                (RmPhase::Listing, RmAction::ListHolders)
            } else {
                (RmPhase::Closing(false), RmAction::EndSession)
            },
            RmPhase::Listing => if ok || reply.status == ERROR_MORE_DATA {
                if reply.holders == 0 {
                    (RmPhase::Closing(true), RmAction::EndSession)
                } else {
                    (RmPhase::ShuttingDown, RmAction::ForceShutdown)
                }
            } else {
                (RmPhase::Closing(false), RmAction::EndSession)
            },
            RmPhase::ShuttingDown => if ok {
                (RmPhase::Closing(true), RmAction::EndSession)
            } else {
                (RmPhase::Closing(false), RmAction::EndSession)
            },
            RmPhase::Closing(released) => (RmPhase::Done(released), RmAction::Finish(released)),
            RmPhase::Done(released) => (RmPhase::Done(released), RmAction::Finish(released)),
        };
        self.phase = next;
        action
    }

    /// Whether a restart-manager session is open.
    pub fn is_session_open(&self) -> (r: bool)
        ensures
            r == session_open(self.phase),
    {
        match self.phase {
            RmPhase::Registering | RmPhase::Listing | RmPhase::ShuttingDown => true,
            _ => false,
        }
    }
}

/// Sessions still to be ended from a phase: one while a session may yet be
/// open, none once it has been ended or never started.
pub open spec fn ends_left(p: RmPhase) -> nat {
    match p {
        RmPhase::Closing(_) | RmPhase::Done(_) => 0,
        _ => 1,
    }
}

/// A run has one action for each reply.
proof fn lemma_run_len(p: RmPhase, replies: Seq<RmReply>)
    ensures
        rm_run(p, replies).len() == replies.len(),
    decreases replies.len(),
{
    if replies.len() > 0 {
        let (q, a) = rm_step(p, replies[0]);
        lemma_run_len(q, replies.drop_first());
    }
}

proof fn lemma_end_count_concat(a: RmAction, rest: Seq<RmAction>)
    ensures
        end_count(seq![a] + rest) == (if a == RmAction::EndSession {
            1nat
        } else {
            0nat
        }) + end_count(rest),
{
    assert((seq![a] + rest).drop_first() =~= rest);
}

/// From any phase, the session is ended at most as often as `ends_left` says.
proof fn lemma_ends_bounded(p: RmPhase, replies: Seq<RmReply>)
    ensures
        end_count(rm_run(p, replies)) <= ends_left(p),
    decreases replies.len(),
{
    if replies.len() > 0 {
        let (q, a) = rm_step(p, replies[0]);
        lemma_ends_bounded(q, replies.drop_first());
        lemma_end_count_concat(a, rm_run(q, replies.drop_first()));
    }
}

/// From an open session, a run that finishes has ended the session.
proof fn lemma_open_finish_ends(p: RmPhase, replies: Seq<RmReply>)
    requires
        session_open(p),
        finished(rm_run(p, replies)),
    ensures
        end_count(rm_run(p, replies)) >= 1,
    decreases replies.len(),
{
    let (q, a) = rm_step(p, replies[0]);
    let rest = rm_run(q, replies.drop_first());
    lemma_end_count_concat(a, rest);
    if a != RmAction::EndSession {
        assert(session_open(q));
        let i = choose|i: int| 0 <= i < rm_run(p, replies).len() && rm_run(p, replies)[i] is Finish;
        assert(i > 0);
        assert(rest[i - 1] is Finish);
        lemma_open_finish_ends(q, replies.drop_first());
    }
}

/// The session is ended exactly once on every path that started it, and
/// never when it did not start: whatever the replies, a finished run that
/// began with a successful start has one `EndSession`; a run whose start
/// failed has none; no run has two.
pub proof fn lemma_session_ended_once(replies: Seq<RmReply>)
    ensures
        end_count(rm_run(RmPhase::Starting, replies)) <= 1,
        replies.len() > 0 && replies[0].status != ERROR_SUCCESS ==> end_count(
            rm_run(RmPhase::Starting, replies),
        ) == 0,
        replies.len() > 0 && replies[0].status == ERROR_SUCCESS && finished(
            rm_run(RmPhase::Starting, replies),
        ) ==> end_count(rm_run(RmPhase::Starting, replies)) == 1,
{
    lemma_ends_bounded(RmPhase::Starting, replies);
    if replies.len() > 0 {
        let (q, a) = rm_step(RmPhase::Starting, replies[0]);
        let rest = rm_run(q, replies.drop_first());
        lemma_end_count_concat(a, rest);
        lemma_ends_bounded(q, replies.drop_first());
        if replies[0].status == ERROR_SUCCESS && finished(rm_run(RmPhase::Starting, replies)) {
            let i = choose|i: int|
                0 <= i < rm_run(RmPhase::Starting, replies).len() && rm_run(
                    RmPhase::Starting,
                    replies,
                )[i] is Finish;
            assert(i > 0);
            assert(rest[i - 1] is Finish);
            lemma_open_finish_ends(q, replies.drop_first());
        }
    }
}

/// A shutdown is asked for only in answer to a holder list that succeeded
/// and named at least one holder: when nothing holds the file, no process
/// is shut down.
pub proof fn lemma_shutdown_needs_holders(p: RmPhase, replies: Seq<RmReply>, k: int)
    requires
        0 <= k < replies.len(),
        k < rm_run(p, replies).len(),
        rm_run(p, replies)[k] == RmAction::ForceShutdown,
    ensures
        replies[k].holders > 0,
        replies[k].status == ERROR_SUCCESS || replies[k].status == ERROR_MORE_DATA,
    decreases replies.len(),
{
    let (q, a) = rm_step(p, replies[0]);
    lemma_run_len(q, replies.drop_first());
    if k > 0 {
        assert(rm_run(p, replies)[k] == rm_run(q, replies.drop_first())[k - 1]);
        lemma_shutdown_needs_holders(q, replies.drop_first(), k - 1);
    }
}

} // verus!
