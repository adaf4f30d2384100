//! Endings, exit codes and the fixed lines the program shows.

use vstd::prelude::*;

verus! {

/// Why loading the model failed.  Any of these is fatal: the loop never
/// starts.
#[derive(Clone, Copy, Debug)]
pub enum ModelLoadError {
    /// The model file does not exist or cannot be read.
    FileNotFound,
    /// The file is not in a format the engine recognizes.
    UnsupportedFormat,
    /// The accelerator could not be initialized.
    AcceleratorFailed,
    /// The weights did not fit in memory.
    OutOfMemory,
    /// Any other engine-side load failure.
    Other,
}

/// The diagnostic for each way a load can fail.
pub open spec fn load_error_text_spec(e: ModelLoadError) -> Seq<char> {
    match e {
        ModelLoadError::FileNotFound => "model file not found or unreadable"@,
        ModelLoadError::UnsupportedFormat => "model file format not recognized"@,
        ModelLoadError::AcceleratorFailed => "accelerator initialization failed"@,
        ModelLoadError::OutOfMemory => "not enough memory to load the model"@,
        ModelLoadError::Other => "model could not be loaded"@,
    }
}

impl ModelLoadError {
    /// The diagnostic shown before the process exits, never empty.
    pub fn describe(&self) -> (r: String)
        ensures
            r@ == load_error_text_spec(*self),
            r@.len() > 0,
    {
        proof {
            reveal_strlit("model file not found or unreadable");
            reveal_strlit("model file format not recognized");
            reveal_strlit("accelerator initialization failed");
            reveal_strlit("not enough memory to load the model");
            reveal_strlit("model could not be loaded");
        }
        match self {
            ModelLoadError::FileNotFound => String::from_str("model file not found or unreadable"),
            ModelLoadError::UnsupportedFormat => String::from_str(
                "model file format not recognized",
            ),
            ModelLoadError::AcceleratorFailed => String::from_str(
                "accelerator initialization failed",
            ),
            ModelLoadError::OutOfMemory => String::from_str(
                "not enough memory to load the model",
            ),
            ModelLoadError::Other => String::from_str("model could not be loaded"),
        }
    }
}

/// How the process can end.
#[derive(Clone, Copy, Debug)]
pub enum RunEnding {
    /// The input stream closed: the conversation is simply over.
    InputClosed,
    /// The model never loaded.
    LoadFailed(ModelLoadError),
    /// A turn's inference call failed.
    InferenceFailed,
}

/// The exit status owed for each ending: zero exactly for a closed input
/// stream, non-zero for every error.
pub open spec fn exit_code_spec(e: RunEnding) -> int {
    match e {
        RunEnding::InputClosed => 0,
        RunEnding::LoadFailed(_) => 1,
        RunEnding::InferenceFailed => 1,
    }
}

/// The exit status to leave the process with.
pub fn exit_code(e: &RunEnding) -> (c: i32)
    ensures
        c == exit_code_spec(*e),
        c == 0 <==> e is InputClosed,
{
    match e {
        RunEnding::InputClosed => 0,
        RunEnding::LoadFailed(_) => 1,
        RunEnding::InferenceFailed => 1,
    }
}

/// The one-time confirmation line shown after a successful model load.
pub fn load_confirmation(path: &str) -> (r: String)
    ensures
        r@ == "Model `"@ + path@ + "` loaded!"@,
{
    let mut r = String::from_str("Model `");
    r.append(path);
    r.append("` loaded!");
    r
}

/// The marker shown at the start of every assistant reply.
pub fn turn_marker() -> (r: &'static str)
    ensures
        r@ == "\u{1F449}"@,
{
    "\u{1F449}"
}

} // verus!
