//! The conversation loop: turn-taking across one session.
//!
//! The loop owns exactly one session for the whole process.  Each turn
//! goes input -> framing -> inference -> streaming, and on success the
//! loop prints a fixed separator and waits for the next line.  End of
//! input ends the conversation cleanly; an inference failure aborts it.

use vstd::prelude::*;

use crate::framing::{frame_prompt, framed_spec};

verus! {

/// The engine-session handle as the loop accounts for it.  The engine's
/// cache and token history are opaque and stay with the engine; the loop
/// tracks only how many turns the session has absorbed, a state token
/// that grows by one with every completed turn.
pub struct Session {
    pub turns_completed: u64,
}

/// Where the loop stands between calls.
#[derive(Clone, Copy, Debug)]
pub enum LoopState {
    /// Blocked on the next user line.
    AwaitingInput,
    /// A framed prompt has been handed to the engine; the reply is being
    /// streamed.
    Inferring,
    /// The conversation is over: input ended or inference failed.
    Terminated,
}

/// One conversation: the loop state and its single session.
pub struct Conversation {
    pub state: LoopState,
    pub session: Session,
}

/// What the caller must do after offering a line of input.
pub enum TurnDirective {
    /// Run the engine on this framed prompt, streaming into a fresh
    /// token filter.
    Infer(String),
    /// Input has ended: leave the loop and exit cleanly.
    Exit,
}

/// What the caller must do once inference has returned.
pub enum CloseDirective {
    /// The turn completed: show this separator, then read the next line.
    EmitSeparator(String),
    /// Inference failed: abort the conversation.
    Abort,
}

/// The visual separator after a completed turn.
pub open spec fn separator_spec() -> Seq<char> {
    "\n\n"@
}

/// Offering a line (or the end of input) moves the loop out of
/// `AwaitingInput`; the session is untouched.
pub open spec fn begin_turn_trans(c: Conversation, end_of_input: bool) -> Conversation {
    if end_of_input {
        Conversation { state: LoopState::Terminated, session: c.session }
    } else {
        Conversation { state: LoopState::Inferring, session: c.session }
    }
}

/// Closing a turn either completes it — the session has absorbed one
/// more turn and the loop waits again — or terminates the conversation
/// with the session as it was.
pub open spec fn finish_turn_trans(c: Conversation, ok: bool) -> Conversation {
    if ok {
        Conversation {
            state: LoopState::AwaitingInput,
            session: Session { turns_completed: (c.session.turns_completed + 1) as u64 },
        }
    } else {
        Conversation { state: LoopState::Terminated, session: c.session }
    }
}

impl Conversation {
    /// A fresh conversation: one new session, no turns absorbed yet,
    /// waiting for the first line.
    pub fn new() -> (c: Conversation)
        ensures
            c.state is AwaitingInput,
            c.session.turns_completed == 0,
    {
        Conversation { state: LoopState::AwaitingInput, session: Session { turns_completed: 0 } }
    }

    /// Offer the next line of input, or `None` when the input stream has
    /// closed.  A line yields the framed prompt to run inference on; end
    /// of input ends the conversation without any inference.
    pub fn begin_turn(&mut self, line: Option<&str>) -> (d: TurnDirective)
        requires
            old(self).state is AwaitingInput,
        ensures
            *final(self) == begin_turn_trans(*old(self), line is None),
            (match d {
                TurnDirective::Infer(p) => line is Some && p@ == framed_spec(line->0@),
                TurnDirective::Exit => line is None,
            }),
    {
        match line {
            None => {
                self.state = LoopState::Terminated;
                TurnDirective::Exit
            },
            Some(text) => {
                let p = frame_prompt(text);
                self.state = LoopState::Inferring;
                TurnDirective::Infer(p)
            },
        }
    }

    /// Report how inference ended.  On success the session has absorbed
    /// the turn and the caller must show exactly the two-newline
    /// separator before reading again; on failure the conversation is
    /// terminated.
    pub fn finish_turn(&mut self, ok: bool) -> (d: CloseDirective)
        requires
            old(self).state is Inferring,
            old(self).session.turns_completed < u64::MAX,
        ensures
            *final(self) == finish_turn_trans(*old(self), ok),
            (match d {
                CloseDirective::EmitSeparator(s) => ok && s@ == separator_spec(),
                CloseDirective::Abort => !ok,
            }),
    {
        if ok {
            self.session.turns_completed = self.session.turns_completed + 1;
            self.state = LoopState::AwaitingInput;
            CloseDirective::EmitSeparator(String::from_str("\n\n"))
        } else {
            self.state = LoopState::Terminated;
            CloseDirective::Abort
        }
    }
}

/// Law: the turn separator is exactly two newline characters — no more,
/// no fewer — whatever the length of the reply that preceded it.
pub proof fn lemma_separator_two_newlines()
    ensures
        separator_spec().len() == 2,
        separator_spec()[0] == '\n',
        separator_spec()[1] == '\n',
{
    reveal_strlit("\n\n");
}

/// Law: the turn counter of the one session never decreases across loop
/// transitions, and beginning a turn leaves the session untouched.
pub proof fn lemma_turn_counter_monotone(c: Conversation, end_of_input: bool, ok: bool)
    requires
        c.session.turns_completed < u64::MAX,
    ensures
        begin_turn_trans(c, end_of_input).session == c.session,
        finish_turn_trans(c, ok).session.turns_completed >= c.session.turns_completed,
{
}

/// Law: two sequential turns run on the one shared session, and the
/// second turn sees the state the first left behind: after each
/// completed turn the session's state token has grown by exactly one.
pub proof fn lemma_session_accumulates(c: Conversation)
    requires
        c.state is AwaitingInput,
        c.session.turns_completed + 2 <= u64::MAX,
    ensures
        ({
            let c1 = finish_turn_trans(begin_turn_trans(c, false), true);
            let c2 = finish_turn_trans(begin_turn_trans(c1, false), true);
            &&& c1.state is AwaitingInput
            &&& c2.state is AwaitingInput
            &&& c1.session.turns_completed == c.session.turns_completed + 1
            &&& c2.session.turns_completed == c.session.turns_completed + 2
        }),
{
}

} // verus!
