use chat_core::config::ModelConfig;
use chat_core::report::{exit_code, load_confirmation, turn_marker, ModelLoadError, RunEnding};
use chat_core::session::{CloseDirective, Conversation, LoopState, TurnDirective};
use chat_core::stream::{StreamFilter, TokenStep};

/// A stand-in for the inference engine: it records the prompt and the
/// session state token it was called with, then replays fixed tokens.
struct StubEngine {
    calls: Vec<(String, u64)>,
    reply: Vec<&'static str>,
}

impl StubEngine {
    fn new(reply: Vec<&'static str>) -> StubEngine {
        StubEngine { calls: Vec::new(), reply }
    }

    fn infer(&mut self, prompt: &str, session_token: u64) -> (String, bool) {
        self.calls.push((prompt.to_string(), session_token));
        let mut filter = StreamFilter::new();
        let mut out = String::new();
        let mut halted = false;
        for t in &self.reply {
            match filter.push_token(t) {
                TokenStep::Emit(s) => out.push_str(&s),
                TokenStep::Hold => {}
                TokenStep::Halt => {
                    halted = true;
                    break;
                }
            }
        }
        (out, halted)
    }
}

fn run_turn(convo: &mut Conversation, engine: &mut StubEngine, line: &str) -> (String, String) {
    assert!(matches!(convo.state, LoopState::AwaitingInput));
    let prompt = match convo.begin_turn(Some(line)) {
        TurnDirective::Infer(p) => p,
        TurnDirective::Exit => panic!("a line of input never ends the loop"),
    };
    let (out, _) = engine.infer(&prompt, convo.session.turns_completed);
    match convo.finish_turn(true) {
        CloseDirective::EmitSeparator(sep) => (out, sep),
        CloseDirective::Abort => panic!("a completed turn is never aborted"),
    }
}

#[test]
fn scenario_stubbed_hello_turn() {
    let mut convo = Conversation::new();
    let mut engine = StubEngine::new(vec!["ASSISTANT:", " hi", " there", "USER:"]);
    let (out, sep) = run_turn(&mut convo, &mut engine, "hello");
    assert_eq!(engine.calls[0].0, "USER: hello\nASSISTANT:");
    assert_eq!(out, " hi there");
    assert_eq!(sep, "\n\n");
}

#[test]
fn scenario_input_closed_immediately() {
    let mut convo = Conversation::new();
    let d = convo.begin_turn(None);
    assert!(matches!(d, TurnDirective::Exit));
    assert!(matches!(convo.state, LoopState::Terminated));
    assert_eq!(convo.session.turns_completed, 0);
    assert_eq!(exit_code(&RunEnding::InputClosed), 0);
}

#[test]
fn scenario_model_load_failure_is_fatal_and_nonzero() {
    let e = ModelLoadError::FileNotFound;
    let code = exit_code(&RunEnding::LoadFailed(e));
    assert_ne!(code, 0);
    assert!(!e.describe().is_empty());
}

#[test]
fn two_turns_share_one_session_and_state_accumulates() {
    let mut convo = Conversation::new();
    let mut engine = StubEngine::new(vec!["ASSISTANT:", " ok", "USER:"]);
    run_turn(&mut convo, &mut engine, "first");
    run_turn(&mut convo, &mut engine, "second");
    assert_eq!(engine.calls.len(), 2);
    assert_eq!(engine.calls[0].1, 0);
    assert_eq!(engine.calls[1].1, 1);
    assert!(engine.calls[1].1 > engine.calls[0].1);
    assert_eq!(convo.session.turns_completed, 2);
}

#[test]
fn one_model_serves_arbitrarily_many_turns() {
    let mut convo = Conversation::new();
    let mut engine = StubEngine::new(vec!["ASSISTANT:", " yes", "USER:"]);
    for i in 0..5u64 {
        assert_eq!(convo.session.turns_completed, i);
        let (out, sep) = run_turn(&mut convo, &mut engine, "again");
        assert_eq!(out, " yes");
        assert_eq!(sep, "\n\n");
    }
    assert_eq!(convo.session.turns_completed, 5);
    assert_eq!(engine.calls.len(), 5);
}

#[test]
fn separator_is_two_newlines_even_for_zero_token_reply() {
    let mut convo = Conversation::new();
    let mut engine = StubEngine::new(vec![]);
    let (out, sep) = run_turn(&mut convo, &mut engine, "anything");
    assert_eq!(out, "");
    assert_eq!(sep, "\n\n");
}

#[test]
fn inference_failure_terminates_with_nonzero_code() {
    let mut convo = Conversation::new();
    match convo.begin_turn(Some("hello")) {
        TurnDirective::Infer(_) => {}
        TurnDirective::Exit => panic!("a line of input never ends the loop"),
    }
    let d = convo.finish_turn(false);
    assert!(matches!(d, CloseDirective::Abort));
    assert!(matches!(convo.state, LoopState::Terminated));
    assert_ne!(exit_code(&RunEnding::InferenceFailed), 0);
}

#[test]
fn default_configuration_matches_the_fixed_wiring() {
    let cfg = ModelConfig::default_for_path("weights.bin".to_string());
    assert_eq!(cfg.model_path, "weights.bin");
    assert_eq!(cfg.context_size, 2048);
    assert!(cfg.prefer_mmap);
    assert!(cfg.use_gpu);
    assert!(cfg.lora_adapters.is_none());
    assert!(cfg.gpu_layers.is_none());
}

#[test]
fn load_confirmation_names_the_path() {
    assert_eq!(load_confirmation("llama.bin"), "Model `llama.bin` loaded!");
}

#[test]
fn turn_marker_is_the_pointing_hand() {
    assert_eq!(turn_marker(), "\u{1F449}");
}

#[test]
fn every_load_error_has_a_diagnostic_and_nonzero_code() {
    let all = [
        ModelLoadError::FileNotFound,
        ModelLoadError::UnsupportedFormat,
        ModelLoadError::AcceleratorFailed,
        ModelLoadError::OutOfMemory,
        ModelLoadError::Other,
    ];
    for e in all {
        assert!(!e.describe().is_empty());
        assert_ne!(exit_code(&RunEnding::LoadFailed(e)), 0);
    }
}
