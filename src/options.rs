use vstd::prelude::*;

verus! {

/// Hardware acceleration mode
#[derive(Debug, Clone, Copy, PartialEq, Eq, Structural)]
pub enum AccelerationMode {
    Auto,
    CPU,
    GPU,
}

impl AccelerationMode {
    /// The integer the engine's initialization options use for this mode.
    pub open spec fn spec_code(self) -> i32 {
        match self {
            AccelerationMode::Auto => 0,
            AccelerationMode::CPU => 1,
            AccelerationMode::GPU => 2,
        }
    }

    /// The integer the engine's initialization options use for this mode.
    pub fn code(&self) -> (r: i32)
        ensures
            r == self.spec_code(),
    {
        match self {
            AccelerationMode::Auto => 0,
            AccelerationMode::CPU => 1,
            AccelerationMode::GPU => 2,
        }
    }
}

/// Options for initializing the engine.
#[derive(Debug, Clone)]
pub struct InitializeOptions {
    pub acceleration_mode: AccelerationMode,
    pub cpu_num_threads: u16,
    pub load_all_models: bool,
    pub open_jtalk_dict_dir: String,
}

impl InitializeOptions {
    /// Gathers the four initialization settings.
    pub fn new(
        acceleration_mode: AccelerationMode,
        cpu_num_threads: u16,
        load_all_models: bool,
        open_jtalk_dict_dir: String,
    ) -> (r: InitializeOptions)
        ensures
            r.acceleration_mode == acceleration_mode,
            r.cpu_num_threads == cpu_num_threads,
            r.load_all_models == load_all_models,
            r.open_jtalk_dict_dir@ == open_jtalk_dict_dir@,
    {
        InitializeOptions { acceleration_mode, cpu_num_threads, load_all_models, open_jtalk_dict_dir }
    }
}

/// Options of the text analysis stage.
#[derive(Debug, Clone, Copy, PartialEq, Eq, Structural)]
pub struct AudioQueryOptions {
    /// The input is AquesTalk-style phonetic notation rather than plain text.
    pub kana: bool,
}

/// Options of the synthesis stage.
#[derive(Debug, Clone, Copy, PartialEq, Eq, Structural)]
pub struct SynthesisOptions {
    /// Raise the pitch at the end of a question.
    pub enable_interrogative_upspeak: bool,
}

/// Options of the composite text-to-speech operation.
#[derive(Debug, Clone, Copy, PartialEq, Eq, Structural)]
pub struct TtsOptions {
    /// The input is AquesTalk-style phonetic notation rather than plain text.
    pub kana: bool,
    /// Raise the pitch at the end of a question.
    pub enable_interrogative_upspeak: bool,
}

} // verus!
