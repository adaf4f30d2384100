//! The model configuration: the fixed parameters the model is loaded
//! with, consumed exactly once before the loop starts.

use vstd::prelude::*;

verus! {

/// Everything the engine needs to load the model.  Immutable once
/// constructed.
pub struct ModelConfig {
    /// Path of the model file on disk.
    pub model_path: String,
    /// Context window, in tokens.  Always positive.
    pub context_size: usize,
    /// Prefer memory-mapping the weights.
    pub prefer_mmap: bool,
    /// Ask for the accelerator; the engine may silently fall back.
    pub use_gpu: bool,
    /// Adapter files to apply, if any.
    pub lora_adapters: Option<Vec<String>>,
    /// How many layers to offload; absent means the engine decides.
    pub gpu_layers: Option<usize>,
}

impl ModelConfig {
    /// A configuration is well formed when its context window is a
    /// positive number of tokens.
    pub open spec fn wf(self) -> bool {
        0 < self.context_size
    }

    /// The fixed configuration this program loads every model with: a
    /// 2048-token context window, memory-mapped weights, best-effort
    /// accelerator use, no adapters and automatic layer offload.
    pub fn default_for_path(path: String) -> (c: ModelConfig)
        ensures
            c.model_path@ == path@,
            c.context_size == 2048,
            c.prefer_mmap,
            c.use_gpu,
            c.lora_adapters is None,
            c.gpu_layers is None,
            c.wf(),
    {
        ModelConfig {
            model_path: path,
            context_size: 2048,
            prefer_mmap: true,
            use_gpu: true,
            lora_adapters: None,
            gpu_layers: None,
        }
    }
}

} // verus!
