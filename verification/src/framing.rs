//! Prompt framing: wrapping one raw user utterance in the fixed role tags
//! before it is handed to the inference engine.
//!
//! Every turn is submitted as `<human-tag> <text>\n<assistant-tag>`, so the
//! engine is steered into continuing as the assistant speaker.

use vstd::prelude::*;

verus! {

/// The tag that marks the human speaker in the transcript.
pub open spec fn user_tag_spec() -> Seq<char> {
    "USER:"@
}

/// The tag that marks the assistant speaker in the transcript.
pub open spec fn assistant_tag_spec() -> Seq<char> {
    "ASSISTANT:"@
}

/// A framed prompt: the human tag, a space, the raw text, a newline and
/// the assistant tag, in that order and with nothing else.
pub open spec fn framed_spec(text: Seq<char>) -> Seq<char> {
    user_tag_spec() + " "@ + text + "\n"@ + assistant_tag_spec()
}

pub fn user_tag() -> (r: &'static str)
    ensures
        r@ == user_tag_spec(),
{
    "USER:"
}

pub fn assistant_tag() -> (r: &'static str)
    ensures
        r@ == assistant_tag_spec(),
{
    "ASSISTANT:"
}

/// Build the prompt for one turn from the raw user text.
pub fn frame_prompt(text: &str) -> (r: String)
    ensures
        r@ == framed_spec(text@),
{
    let mut r = String::new();
    r.append("USER:");
    r.append(" ");
    r.append(text);
    r.append("\n");
    r.append("ASSISTANT:");
    proof {
        assert(r@ =~= framed_spec(text@));
    }
    r
}

/// Law: framing is reversible.  The framed prompt determines the original
/// text and both tags: they stand at fixed offsets and can be recovered by
/// splitting the framed string there.
pub proof fn lemma_frame_round_trip(text: Seq<char>)
    ensures
        framed_spec(text).len() == text.len() as int + 17,
        framed_spec(text).subrange(0, 5) == user_tag_spec(),
        framed_spec(text)[5] == ' ',
        framed_spec(text).subrange(6, text.len() as int + 6) == text,
        framed_spec(text)[text.len() as int + 6] == '\n',
        framed_spec(text).subrange(text.len() as int + 7, text.len() as int + 17) == assistant_tag_spec(),
{
    reveal_strlit("USER:");
    reveal_strlit("ASSISTANT:");
    reveal_strlit(" ");
    reveal_strlit("\n");
    assert(framed_spec(text).subrange(0, 5) =~= user_tag_spec());
    assert(framed_spec(text).subrange(6, text.len() as int + 6) =~= text);
    assert(framed_spec(text).subrange(text.len() as int + 7, text.len() as int + 17) =~= assistant_tag_spec());
}

/// Law: framing is injective — two distinct utterances never frame to the
/// same prompt, so nothing of the user text is lost by framing.
pub proof fn lemma_frame_injective(a: Seq<char>, b: Seq<char>)
    requires
        framed_spec(a) == framed_spec(b),
    ensures
        a == b,
{
    lemma_frame_round_trip(a);
    lemma_frame_round_trip(b);
    assert(a == framed_spec(a).subrange(6, a.len() as int + 6));
    assert(b == framed_spec(b).subrange(6, b.len() as int + 6));
}

} // verus!
