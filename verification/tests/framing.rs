use chat_core::framing::{assistant_tag, frame_prompt, user_tag};

#[test]
fn tags_are_the_fixed_role_labels() {
    assert_eq!(user_tag(), "USER:");
    assert_eq!(assistant_tag(), "ASSISTANT:");
}

#[test]
fn frames_verbatim() {
    let p = frame_prompt("hello");
    assert_eq!(p, "USER: hello\nASSISTANT:");
}

#[test]
fn frames_arbitrary_text_verbatim() {
    let p = frame_prompt("what is 2 + 2?");
    assert_eq!(p, "USER: what is 2 + 2?\nASSISTANT:");
}

#[test]
fn frames_empty_text() {
    let p = frame_prompt("");
    assert_eq!(p, "USER: \nASSISTANT:");
}

#[test]
fn framed_prompt_round_trips_by_split() {
    let original = "hello there";
    let p = frame_prompt(original);
    let rest = p.strip_prefix("USER: ").expect("human tag and space lead the prompt");
    let recovered = rest.strip_suffix("\nASSISTANT:").expect("assistant tag ends the prompt");
    assert_eq!(recovered, original);
}
