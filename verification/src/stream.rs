//! Streaming token filter: the stop condition of one assistant turn.
//!
//! The engine hands the reply back one token at a time.  The filter
//! decides, token by token, what may be shown: a leading echo of the
//! assistant tag is swallowed, text that could still turn out to be the
//! human-tag stop marker is withheld, and generation is halted as soon as
//! the stream starts echoing the human tag — the model hallucinating the
//! next user turn.  The withheld partial echo is never shown.

use vstd::prelude::*;

use crate::framing::{assistant_tag, assistant_tag_spec, user_tag, user_tag_spec};

verus! {

/// Where the filter stands within one assistant turn.
#[derive(Clone, Copy, Debug)]
pub enum Phase {
    /// Still swallowing the leading assistant-tag echo.
    Lead,
    /// Forwarding assistant text, watching for the stop marker.
    Emitting,
    /// The stop marker appeared: the turn is over.
    Halted,
}

/// What the caller must do with one incoming token.
#[derive(Debug)]
pub enum TokenStep {
    /// Show this text now.
    Emit(String),
    /// Show nothing yet: the text so far could still be a marker echo.
    Hold,
    /// Stop generation; show nothing.
    Halt,
}

/// One step of the emitting phase on the combined withheld-plus-new text.
/// Result: the phase, the withheld text, and the emitted text after the step.
pub open spec fn emit_step_spec(pending: Seq<char>, t: Seq<char>) -> (Phase, Seq<char>, Seq<char>) {
    let buf = pending + t;
    if user_tag_spec().is_prefix_of(buf) {
        (Phase::Halted, Seq::<char>::empty(), Seq::<char>::empty())
    } else if buf.is_prefix_of(user_tag_spec()) {
        (Phase::Emitting, buf, Seq::<char>::empty())
    } else {
        (Phase::Emitting, Seq::<char>::empty(), buf)
    }
}

/// One step of the lead phase: swallow the assistant-tag echo, then let
/// whatever follows it go through the emitting step.
pub open spec fn lead_step_spec(pending: Seq<char>, t: Seq<char>) -> (Phase, Seq<char>, Seq<char>) {
    let buf = pending + t;
    if assistant_tag_spec().is_prefix_of(buf) {
        emit_step_spec(Seq::<char>::empty(), buf.skip(assistant_tag_spec().len() as int))
    } else if buf.is_prefix_of(assistant_tag_spec()) {
        (Phase::Lead, buf, Seq::<char>::empty())
    } else {
        emit_step_spec(Seq::<char>::empty(), buf)
    }
}

/// One step of the filter in any phase.
pub open spec fn filter_step_spec(phase: Phase, pending: Seq<char>, t: Seq<char>) -> (
    Phase,
    Seq<char>,
    Seq<char>,
) {
    match phase {
        Phase::Lead => lead_step_spec(pending, t),
        Phase::Emitting => emit_step_spec(pending, t),
        Phase::Halted => (Phase::Halted, Seq::<char>::empty(), Seq::<char>::empty()),
    }
}

/// The filter run over a whole token stream; the third component is
/// everything emitted along the way.
pub open spec fn run_spec(phase: Phase, pending: Seq<char>, toks: Seq<Seq<char>>) -> (
    Phase,
    Seq<char>,
    Seq<char>,
)
    decreases toks.len(),
{
    if toks.len() == 0 {
        (phase, pending, Seq::<char>::empty())
    } else {
        let stepped = filter_step_spec(phase, pending, toks[0]);
        let rest = run_spec(stepped.0, stepped.1, toks.skip(1));
        (rest.0, rest.1, stepped.2 + rest.2)
    }
}

/// The per-turn token filter.
pub struct StreamFilter {
    pub phase: Phase,
    pub pending: String,
}

impl StreamFilter {
    /// The withheld text is always a proper prefix of the marker the
    /// current phase is watching for, and nothing is withheld once halted.
    pub open spec fn wf(self) -> bool {
        match self.phase {
            Phase::Lead => self.pending@.len() < assistant_tag_spec().len()
                && self.pending@.is_prefix_of(assistant_tag_spec()),
            Phase::Emitting => self.pending@.len() < user_tag_spec().len()
                && self.pending@.is_prefix_of(user_tag_spec()),
            Phase::Halted => self.pending@.len() == 0,
        }
    }

    /// A fresh filter for one assistant turn.
    pub fn new() -> (r: StreamFilter)
        ensures
            r.phase is Lead,
            r.pending@ == Seq::<char>::empty(),
            r.wf(),
    {
        proof {
            reveal_strlit("ASSISTANT:");
            assert(Seq::<char>::empty().is_prefix_of(assistant_tag_spec())) by {
                assert(assistant_tag_spec().subrange(0, 0) =~= Seq::<char>::empty());
            }
        }
        StreamFilter { phase: Phase::Lead, pending: String::new() }
    }

    /// Feed one raw token; the result says what to show and whether to
    /// keep generating.  The new filter state and the shown text are
    /// exactly those of one specification step.
    pub fn push_token(&mut self, t: &str) -> (step: TokenStep)
        requires
            old(self).wf(),
        ensures
            final(self).wf(),
            final(self).phase == filter_step_spec(old(self).phase, old(self).pending@, t@).0,
            final(self).pending@ == filter_step_spec(old(self).phase, old(self).pending@, t@).1,
            (match step {
                TokenStep::Emit(s) => s@ == filter_step_spec(
                    old(self).phase,
                    old(self).pending@,
                    t@,
                ).2 && s@.len() > 0,
                TokenStep::Hold => filter_step_spec(old(self).phase, old(self).pending@, t@).2.len()
                    == 0 && !(filter_step_spec(old(self).phase, old(self).pending@, t@).0
                    is Halted),
                TokenStep::Halt => filter_step_spec(old(self).phase, old(self).pending@, t@).2.len()
                    == 0 && filter_step_spec(old(self).phase, old(self).pending@, t@).0 is Halted,
            }),
    {
        match self.phase {
            Phase::Halted => TokenStep::Halt,
            Phase::Emitting => {
                let mut buf = self.pending.clone();
                buf.append(t);
                self.pending = String::new();
                proof {
                    assert(Seq::<char>::empty() + buf@ =~= buf@);
                    assert(buf@ == old(self).pending@ + t@);
                }
                self.emit_dispatch(buf)
            },
            Phase::Lead => {
                let mut buf = self.pending.clone();
                buf.append(t);
                self.pending = String::new();
                proof {
                    assert(Seq::<char>::empty() + buf@ =~= buf@);
                    assert(buf@ == old(self).pending@ + t@);
                }
                let atag = assistant_tag();
                if str_is_prefix(atag, buf.as_str()) {
                    let taglen = atag.unicode_len();
                    let n = buf.as_str().unicode_len();
                    let rest = buf.as_str().substring_char(taglen, n);
                    let rest_owned = String::from_str(rest);
                    proof {
                        assert(rest_owned@ =~= buf@.skip(assistant_tag_spec().len() as int));
                    }
                    self.phase = Phase::Emitting;
                    self.emit_dispatch(rest_owned)
                } else if str_is_prefix(buf.as_str(), atag) {
                    proof {
                        assert(buf@.len() < assistant_tag_spec().len()) by {
                            if buf@.len() == assistant_tag_spec().len() {
                                assert(buf@ =~= assistant_tag_spec());
                            }
                        }
                    }
                    self.pending = buf;
                    TokenStep::Hold
                } else {
                    self.phase = Phase::Emitting;
                    self.emit_dispatch(buf)
                }
            },
        }
    }

    /// The three-way decision of the emitting phase, applied to text that
    /// already includes anything previously withheld.
    fn emit_dispatch(&mut self, buf: String) -> (step: TokenStep)
        requires
            old(self).phase is Emitting,
            old(self).pending@.len() == 0,
        ensures
            final(self).wf(),
            final(self).phase == emit_step_spec(Seq::<char>::empty(), buf@).0,
            final(self).pending@ == emit_step_spec(Seq::<char>::empty(), buf@).1,
            (match step {
                TokenStep::Emit(s) => s@ == emit_step_spec(Seq::<char>::empty(), buf@).2
                    && s@.len() > 0,
                TokenStep::Hold => emit_step_spec(Seq::<char>::empty(), buf@).2.len() == 0 && !(
                emit_step_spec(Seq::<char>::empty(), buf@).0 is Halted),
                TokenStep::Halt => emit_step_spec(Seq::<char>::empty(), buf@).2.len() == 0
                    && emit_step_spec(Seq::<char>::empty(), buf@).0 is Halted,
            }),
    {
        proof {
            assert(Seq::<char>::empty() + buf@ =~= buf@);
            reveal_strlit("USER:");
            assert(old(self).pending@ =~= Seq::<char>::empty());
            assert(Seq::<char>::empty().is_prefix_of(user_tag_spec())) by {
                assert(user_tag_spec().subrange(0, 0) =~= Seq::<char>::empty());
            }
        }
        let utag = user_tag();
        if str_is_prefix(utag, buf.as_str()) {
            self.phase = Phase::Halted;
            self.pending = String::new();
            TokenStep::Halt
        } else if str_is_prefix(buf.as_str(), utag) {
            proof {
                assert(buf@.len() < user_tag_spec().len()) by {
                    if buf@.len() == user_tag_spec().len() {
                        assert(buf@ =~= user_tag_spec());
                    }
                }
            }
            self.pending = buf;
            TokenStep::Hold
        } else {
            proof {
                assert(buf@.len() > 0) by {
                    if buf@.len() == 0 {
                        assert(buf@.is_prefix_of(user_tag_spec()));
                    }
                }
            }
            TokenStep::Emit(buf)
        }
    }
}

/// Whether `a` is a prefix of `b`, by characters.
fn str_is_prefix(a: &str, b: &str) -> (r: bool)
    ensures
        r == a@.is_prefix_of(b@),
{
    let alen = a.unicode_len();
    let blen = b.unicode_len();
    if alen > blen {
        return false;
    }
    let mut i: usize = 0;
    while i < alen
        invariant
            i <= alen,
            alen == a@.len(),
            blen == b@.len(),
            alen <= blen,
            forall|j: int| 0 <= j < i ==> a@[j] == b@[j],
        decreases alen - i,
    {
        let ca = a.get_char(i);
        let cb = b.get_char(i);
        if ca != cb {
            proof {
                assert(a@[i as int] != b@[i as int]);
                assert(!a@.is_prefix_of(b@)) by {
                    if a@.is_prefix_of(b@) {
                        assert(a@[i as int] == b@.subrange(0, a@.len() as int)[i as int]);
                    }
                }
            }
            return false;
        }
        i += 1;
    }
    proof {
        assert(a@ =~= b@.subrange(0, a@.len() as int));
    }
    true
}

/// Law: no emitted text is ever a partial echo of the human-tag stop
/// marker, nor does any emitted text begin with that marker.  Once the
/// marker begins appearing in the raw stream, the matching text is
/// withheld — nothing is emitted that step — and when the marker
/// completes, the filter halts with the echo discarded, never shown.
pub proof fn lemma_stop_marker_never_emitted(phase: Phase, pending: Seq<char>, t: Seq<char>)
    ensures
        ({
            let em = filter_step_spec(phase, pending, t).2;
            em.len() > 0 ==> !em.is_prefix_of(user_tag_spec()) && !user_tag_spec().is_prefix_of(em)
        }),
        phase is Emitting && (pending + t).is_prefix_of(user_tag_spec()) ==> filter_step_spec(
            phase,
            pending,
            t,
        ).2.len() == 0,
        phase is Emitting && user_tag_spec().is_prefix_of(pending + t) ==> filter_step_spec(
            phase,
            pending,
            t,
        ).2.len() == 0 && filter_step_spec(phase, pending, t).0 is Halted,
{
}

/// Law: halting is permanent.  Once the stop marker has been seen, the
/// filter stays halted and emits nothing more, however many further
/// tokens arrive.
pub proof fn lemma_halt_is_permanent(pending: Seq<char>, toks: Seq<Seq<char>>)
    ensures
        run_spec(Phase::Halted, pending, toks).0 is Halted,
        run_spec(Phase::Halted, pending, toks).2.len() == 0,
    decreases toks.len(),
{
    if toks.len() > 0 {
        lemma_halt_is_permanent(Seq::<char>::empty(), toks.skip(1));
    }
}

} // verus!
