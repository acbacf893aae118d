use vstd::prelude::*;
use vstd::string::StrSliceExecFns;
use crate::foreign::{CPointerWrap, CStrWrap, FreeFn};
use crate::options::{AudioQueryOptions, InitializeOptions, SynthesisOptions, TtsOptions};
use crate::result_code::{check_code, spec_check_code, CoreError, ResultCode};

verus! {

/// Where the engine stands in its lifecycle. A handle exists only once
/// initialization succeeded; finalizing it cannot be undone.
#[derive(Debug, Clone, Copy, PartialEq, Eq, Structural)]
pub enum EngineStatus {
    Initialized,
    Finalized,
}

/// A call that hands back an engine-allocated buffer, with the arguments
/// that cross the boundary. The inputs themselves travel beside it.
#[derive(Debug, Clone, Copy, PartialEq, Eq, Structural)]
pub enum BufferCall {
    PredictDuration { length: usize, speaker_id: u32 },
    PredictIntonation { length: usize, speaker_id: u32 },
    Decode { phoneme_length: usize, frames_per_phoneme: usize, speaker_id: u32 },
    Synthesis { speaker_id: u32, options: SynthesisOptions },
    /// `options` is `None` where the engine's default options are to be used.
    Tts { speaker_id: u32, options: Option<TtsOptions> },
}

/// The text analysis call, which hands back a JSON text.
#[derive(Debug, Clone, Copy, PartialEq, Eq, Structural)]
pub struct AudioQueryCall {
    pub speaker_id: u32,
    pub options: AudioQueryOptions,
}

/// The call that loads one speaker's model.
#[derive(Debug, Clone, Copy, PartialEq, Eq, Structural)]
pub struct LoadModelCall {
    pub speaker_id: u32,
}

impl BufferCall {
    /// The engine function that releases what this call returns.
    pub open spec fn spec_free_fn(self) -> FreeFn {
        match self {
            BufferCall::PredictDuration { .. } => FreeFn::PredictDurationData,
            BufferCall::PredictIntonation { .. } => FreeFn::PredictIntonationData,
            BufferCall::Decode { .. } => FreeFn::DecodeData,
            BufferCall::Synthesis { .. } => FreeFn::Wav,
            BufferCall::Tts { .. } => FreeFn::Wav,
        }
    }

    /// The engine function that releases what this call returns.
    pub fn free_fn(&self) -> (r: FreeFn)
        ensures
            r == self.spec_free_fn(),
    {
        match self {
            BufferCall::PredictDuration { .. } => FreeFn::PredictDurationData,
            BufferCall::PredictIntonation { .. } => FreeFn::PredictIntonationData,
            BufferCall::Decode { .. } => FreeFn::DecodeData,
            BufferCall::Synthesis { .. } => FreeFn::Wav,
            BufferCall::Tts { .. } => FreeFn::Wav,
        }
    }

    /// Takes the engine's answer to this call: on status `0` the output
    /// region (`bytes`, `length`) becomes owned, paired with this call's
    /// deallocator; on any other status the classified error comes back and
    /// nothing is owned.
    pub fn complete<T>(&self, code: i32, bytes: usize, length: usize) -> (r: Result<
        CPointerWrap<T>,
        CoreError,
    >)
        ensures
            r is Ok <==> code == 0,
            r matches Ok(w) ==> w.spec_address() == bytes && w.spec_len() == length
                && w.spec_free_fn() == self.spec_free_fn(),
            r matches Err(e) ==> spec_check_code(code) == Err::<(), CoreError>(e),
    {
        match check_code(code) {
            Ok(()) => Ok(CPointerWrap::new(bytes, length, self.free_fn())),
            Err(e) => Err(e),
        }
    }
}

impl AudioQueryCall {
    /// Takes the engine's answer to the text analysis call: on status `0`
    /// the JSON text at `string` becomes owned, released by the JSON
    /// deallocator; on any other status the classified error comes back.
    pub fn complete(&self, code: i32, string: usize) -> (r: Result<CStrWrap, CoreError>)
        ensures
            r is Ok <==> code == 0,
            r matches Ok(w) ==> w.spec_address() == string && w.spec_free_fn()
                == FreeFn::AudioQueryJson,
            r matches Err(e) ==> spec_check_code(code) == Err::<(), CoreError>(e),
    {
        match check_code(code) {
            Ok(()) => Ok(CStrWrap::new(string, FreeFn::AudioQueryJson)),
            Err(e) => Err(e),
        }
    }
}

/// Whether a text holds a NUL character.
pub open spec fn spec_has_nul(s: Seq<char>) -> bool {
    exists|i: int| 0 <= i < s.len() && s[i] == '\0'
}

/// The local check on a text before it crosses the boundary.
pub open spec fn text_shape_error(s: Seq<char>) -> Option<CoreError> {
    if spec_has_nul(s) {
        Some(CoreError::NulInText)
    } else {
        None
    }
}

/// The local check on the six intonation inputs: the engine reads one
/// length for all six, so they must agree.
pub open spec fn intonation_shape_error(a: nat, b: nat, c: nat, d: nat, e: nat, f: nat) -> Option<
    CoreError,
> {
    if a == b && a == c && a == d && a == e && a == f {
        None
    } else {
        Some(CoreError::LengthMismatch)
    }
}

/// The local check on the decode inputs: the F0 frames must be a positive
/// whole multiple of the phoneme frames.
pub open spec fn decode_shape_error(phoneme_len: nat, f0_len: nat) -> Option<CoreError> {
    if phoneme_len == 0 || f0_len == 0 || f0_len % phoneme_len != 0 {
        Some(CoreError::Engine(ResultCode::InvalidAudioQueryError))
    } else {
        None
    }
}

/// Provides functionality of Voicevox Core.
///
/// The handle is the record of what the engine has been asked to do: it is
/// made from the outcome of initialization, remembers which speakers' models
/// were loaded, and turns each request into the exact call the
/// engine is to receive, or into the error that makes the call needless.
///
/// # Safety
/// The engine is not thread-safe and is a singleton in a process: one handle
/// per process, used from one thread at a time.
pub struct VoicevoxCore {
    status: EngineStatus,
    load_all_models: bool,
    loaded: Vec<u32>,
}

impl VoicevoxCore {
    pub closed spec fn spec_status(&self) -> EngineStatus {
        self.status
    }

    /// Whether every model was loaded at initialization.
    pub closed spec fn spec_load_all_models(&self) -> bool {
        self.load_all_models
    }

    /// The speakers whose model was loaded through this handle.
    pub closed spec fn loaded_speakers(&self) -> Set<u32> {
        self.loaded@.to_set()
    }

    pub open spec fn spec_initialized(&self) -> bool {
        self.spec_status() == EngineStatus::Initialized
    }

    /// Whether the model of `speaker_id` is in memory.
    pub open spec fn spec_is_model_loaded(&self, speaker_id: u32) -> bool {
        self.spec_load_all_models() || self.loaded_speakers().contains(speaker_id)
    }

    /// The error that stops a call for `speaker_id` before any look at its
    /// inputs: the engine must be initialized and the speaker's model loaded.
    pub open spec fn admission_error(&self, speaker_id: u32) -> Option<CoreError> {
        if !self.spec_initialized() {
            Some(CoreError::Engine(ResultCode::UninitializedStatusError))
        } else if !self.spec_is_model_loaded(speaker_id) {
            Some(CoreError::Engine(ResultCode::InvalidSpeakerIdError))
        } else {
            None
        }
    }

    /// What a stage of text-to-speech returns: the admission error, else the
    /// error of its own input check, else the call.
    pub open spec fn stage_result<C>(&self, speaker_id: u32, shape: Option<CoreError>, call: C) -> Result<
        C,
        CoreError,
    > {
        match self.admission_error(speaker_id) {
            Some(e) => Err(e),
            None => match shape {
                Some(e) => Err(e),
                None => Ok(call),
            },
        }
    }

    /// Builds the handle from the status code the engine's initialization
    /// returned for `opt`: a handle in the initialized state with no model
    /// loaded yet on `0`, the classified error otherwise.
    pub fn new(opt: &InitializeOptions, init_code: i32) -> (r: Result<Self, CoreError>)
        ensures
            r is Ok <==> init_code == 0,
            r matches Ok(core) ==> core.spec_initialized() && core.spec_load_all_models()
                == opt.load_all_models && core.loaded_speakers() == Set::<u32>::empty(),
            r matches Err(e) ==> spec_check_code(init_code) == Err::<(), CoreError>(e),
    {
        match check_code(init_code) {
            Ok(()) => {
                let core = VoicevoxCore {
                    status: EngineStatus::Initialized,
                    load_all_models: opt.load_all_models,
                    loaded: Vec::new(),
                };
                assert(core.loaded@.to_set() =~= Set::<u32>::empty());
                Ok(core)
            },
            Err(e) => Err(e),
        }
    }

    /// Moves the handle to the finalized state. Returns whether the engine's
    /// finalization is due, which is so only the first time.
    pub fn finalize(&mut self) -> (r: bool)
        ensures
            r == old(self).spec_initialized(),
            final(self).spec_status() == EngineStatus::Finalized,
            final(self).spec_load_all_models() == old(self).spec_load_all_models(),
            final(self).loaded_speakers() == old(self).loaded_speakers(),
    {
        let due = match self.status {
            EngineStatus::Initialized => true,
            EngineStatus::Finalized => false,
        };
        self.status = EngineStatus::Finalized;
        due
    }

    /// Whether the engine is initialized.
    pub fn is_initialized(&self) -> (r: bool)
        ensures
            r == self.spec_initialized(),
    {
        match self.status {
            EngineStatus::Initialized => true,
            EngineStatus::Finalized => false,
        }
    }

    /// Returns whether a voice model with the specified speaker ID has been loaded.
    pub fn is_model_loaded(&self, speaker_id: u32) -> (r: bool)
        ensures
            r == self.spec_is_model_loaded(speaker_id),
    {
        if self.load_all_models {
            return true;
        }
        let mut i: usize = 0;
        while i < self.loaded.len()
            invariant
                i <= self.loaded@.len(),
                forall|j: int| 0 <= j < i ==> self.loaded@[j] != speaker_id,
            decreases self.loaded@.len() - i,
        {
            if self.loaded[i] == speaker_id {
                assert(self.loaded@.to_set().contains(self.loaded@[i as int]));
                return true;
            }
            i = i + 1;
        }
        proof {
            if self.loaded@.to_set().contains(speaker_id) {
                assert(self.loaded@.contains(speaker_id));
            }
        }
        false
    }
}


impl VoicevoxCore {
    /// The admission check of every stage of text-to-speech.
    fn admission(&self, speaker_id: u32) -> (r: Option<CoreError>)
        ensures
            r == self.admission_error(speaker_id),
    {
        if !self.is_initialized() {
            Some(CoreError::Engine(ResultCode::UninitializedStatusError))
        } else if !self.is_model_loaded(speaker_id) {
            Some(CoreError::Engine(ResultCode::InvalidSpeakerIdError))
        } else {
            None
        }
    }

    /// Starts loading the model of `speaker_id`. Returns the call to make,
    /// or `None` where this handle already loaded that model, which makes a
    /// second load needless.
    pub fn load_model(&self, speaker_id: u32) -> (r: Result<Option<LoadModelCall>, CoreError>)
        ensures
            r == (if !self.spec_initialized() {
                Err(CoreError::Engine(ResultCode::UninitializedStatusError))
            } else if self.loaded_speakers().contains(speaker_id) {
                Ok(None)
            } else {
                Ok(Some(LoadModelCall { speaker_id }))
            }),
    {
        if !self.is_initialized() {
            return Err(CoreError::Engine(ResultCode::UninitializedStatusError));
        }
        let mut i: usize = 0;
        while i < self.loaded.len()
            invariant
                self.spec_initialized(),
                i <= self.loaded@.len(),
                forall|j: int| 0 <= j < i ==> self.loaded@[j] != speaker_id,
            decreases self.loaded@.len() - i,
        {
            if self.loaded[i] == speaker_id {
                assert(self.loaded@.to_set().contains(self.loaded@[i as int]));
                return Ok(None);
            }
            i = i + 1;
        }
        proof {
            if self.loaded@.to_set().contains(speaker_id) {
                assert(self.loaded@.contains(speaker_id));
            }
        }
        Ok(Some(LoadModelCall { speaker_id }))
    }

    /// Takes the engine's status code for a model load. On success the
    /// speaker is recorded as loaded; on failure nothing changes.
    pub fn complete_load_model(&mut self, call: &LoadModelCall, code: i32) -> (r: Result<(), CoreError>)
        ensures
            r == (if !old(self).spec_initialized() {
                Err(CoreError::Engine(ResultCode::UninitializedStatusError))
            } else {
                spec_check_code(code)
            }),
            final(self).spec_status() == old(self).spec_status(),
            final(self).spec_load_all_models() == old(self).spec_load_all_models(),
            r is Ok ==> final(self).loaded_speakers() == old(self).loaded_speakers().insert(
                call.speaker_id,
            ),
            r is Err ==> final(self).loaded_speakers() == old(self).loaded_speakers(),
    {
        if !self.is_initialized() {
            return Err(CoreError::Engine(ResultCode::UninitializedStatusError));
        }
        match check_code(code) {
            Ok(()) => {
                let ghost before = self.loaded@;
                self.loaded.push(call.speaker_id);
                proof {
                    assert(self.loaded@ == before.push(call.speaker_id));
                    assert forall|x: u32| self.loaded@.to_set().contains(x) <==> before.to_set().insert(
                        call.speaker_id,
                    ).contains(x) by {
                        if self.loaded@.contains(x) {
                            let j = choose|j: int| 0 <= j < self.loaded@.len() && self.loaded@[j] == x;
                            if j < before.len() {
                                assert(before[j] == x);
                                assert(before.contains(x));
                            }
                        }
                        if before.contains(x) {
                            let j = choose|j: int| 0 <= j < before.len() && before[j] == x;
                            assert(self.loaded@[j] == x);
                        }
                        if x == call.speaker_id {
                            assert(self.loaded@[before.len() as int] == x);
                        }
                    }
                    assert(self.loaded@.to_set() =~= before.to_set().insert(call.speaker_id));
                }
                Ok(())
            },
            Err(e) => Err(e),
        }
    }
}

impl VoicevoxCore {
    /// Predicts the duration of each phoneme of `phoneme_vector` for
    /// `speaker_id`: the call to make, whose output has one duration per
    /// phoneme. An empty input is a valid call.
    pub fn predict_duration(&self, phoneme_vector: &[i64], speaker_id: u32) -> (r: Result<
        BufferCall,
        CoreError,
    >)
        ensures
            r == self.stage_result(
                speaker_id,
                None,
                (BufferCall::PredictDuration { length: phoneme_vector@.len() as usize, speaker_id }),
            ),
    {
        match self.admission(speaker_id) {
            Some(e) => Err(e),
            None => Ok(BufferCall::PredictDuration { length: phoneme_vector.len(), speaker_id }),
        }
    }

    /// Predicts the intonation of a voice segment from six aligned phoneme
    /// and accent vectors. The engine receives one length for all six, so
    /// any difference among their lengths is refused here, before the call.
    #[allow(clippy::too_many_arguments)]
    pub fn predict_intonation(
        &self,
        vowel_phoneme_vector: &[i64],
        consonant_phoneme_vector: &[i64],
        start_accent_vector: &[i64],
        end_accent_vector: &[i64],
        start_accent_phrase_vector: &[i64],
        end_accent_phrase_vector: &[i64],
        speaker_id: u32,
    ) -> (r: Result<BufferCall, CoreError>)
        ensures
            r == self.stage_result(
                speaker_id,
                intonation_shape_error(
                    vowel_phoneme_vector@.len(),
                    consonant_phoneme_vector@.len(),
                    start_accent_vector@.len(),
                    end_accent_vector@.len(),
                    start_accent_phrase_vector@.len(),
                    end_accent_phrase_vector@.len(),
                ),
                (BufferCall::PredictIntonation {
                    length: vowel_phoneme_vector@.len() as usize,
                    speaker_id,
                }),
            ),
    {
        if let Some(e) = self.admission(speaker_id) {
            return Err(e);
        }
        let length = vowel_phoneme_vector.len();
        if consonant_phoneme_vector.len() != length || start_accent_vector.len() != length
            || end_accent_vector.len() != length || start_accent_phrase_vector.len() != length
            || end_accent_phrase_vector.len() != length {
            return Err(CoreError::LengthMismatch);
        }
        Ok(BufferCall::PredictIntonation { length, speaker_id })
    }

    /// Decodes phoneme frames and F0 frames into a waveform. The number of
    /// F0 frames per phoneme frame is `f0.len() / phoneme_vectors.len()`,
    /// which must be a positive whole number: an empty phoneme input, an
    /// empty F0 input or a remainder is an invalid audio query.
    pub fn decode<T>(&self, phoneme_vectors: &[T], f0: &[T], speaker_id: u32) -> (r: Result<
        BufferCall,
        CoreError,
    >)
        ensures
            r == self.stage_result(
                speaker_id,
                decode_shape_error(phoneme_vectors@.len(), f0@.len()),
                (BufferCall::Decode {
                    phoneme_length: phoneme_vectors@.len() as usize,
                    frames_per_phoneme: (f0@.len() / phoneme_vectors@.len()) as usize,
                    speaker_id,
                }),
            ),
    {
        if let Some(e) = self.admission(speaker_id) {
            return Err(e);
        }
        let phoneme_length = phoneme_vectors.len();
        let f0_length = f0.len();
        if phoneme_length == 0 || f0_length == 0 || f0_length % phoneme_length != 0 {
            return Err(CoreError::Engine(ResultCode::InvalidAudioQueryError));
        }
        Ok(BufferCall::Decode {
            phoneme_length,
            frames_per_phoneme: f0_length / phoneme_length,
            speaker_id,
        })
    }

    /// Synthesizes speech from an AudioQuery in JSON form; the engine checks
    /// the JSON itself.
    pub fn synthesis(&self, audio_query: &str, speaker_id: u32, options: SynthesisOptions) -> (r:
        Result<BufferCall, CoreError>)
        ensures
            r == self.stage_result(
                speaker_id,
                text_shape_error(audio_query@),
                (BufferCall::Synthesis { speaker_id, options }),
            ),
    {
        if let Some(e) = self.admission(speaker_id) {
            return Err(e);
        }
        if has_nul(audio_query) {
            return Err(CoreError::NulInText);
        }
        Ok(BufferCall::Synthesis { speaker_id, options })
    }

    /// Runs the engine's text analysis on `text`, which yields an AudioQuery
    /// in JSON form.
    pub fn audio_query(&self, text: &str, speaker_id: u32, options: AudioQueryOptions) -> (r:
        Result<AudioQueryCall, CoreError>)
        ensures
            r == self.stage_result(
                speaker_id,
                text_shape_error(text@),
                (AudioQueryCall { speaker_id, options }),
            ),
    {
        if let Some(e) = self.admission(speaker_id) {
            return Err(e);
        }
        if has_nul(text) {
            return Err(CoreError::NulInText);
        }
        Ok(AudioQueryCall { speaker_id, options })
    }

    /// Text-to-speech with the engine's default options; see `tts`.
    pub fn tts_simple(&self, text: &str, speaker_id: u32) -> (r: Result<BufferCall, CoreError>)
        ensures
            r == self.stage_result(
                speaker_id,
                text_shape_error(text@),
                (BufferCall::Tts { speaker_id, options: None }),
            ),
    {
        self.make_tts_call(text, speaker_id, None)
    }

    /// Text-to-speech: text analysis followed by synthesis in one engine
    /// call, which yields a WAV buffer.
    pub fn tts(&self, text: &str, speaker_id: u32, options: TtsOptions) -> (r: Result<
        BufferCall,
        CoreError,
    >)
        ensures
            r == self.stage_result(
                speaker_id,
                text_shape_error(text@),
                (BufferCall::Tts { speaker_id, options: Some(options) }),
            ),
    {
        self.make_tts_call(text, speaker_id, Some(options))
    }

    fn make_tts_call(&self, text: &str, speaker_id: u32, options: Option<TtsOptions>) -> (r: Result<
        BufferCall,
        CoreError,
    >)
        ensures
            r == self.stage_result(
                speaker_id,
                text_shape_error(text@),
                (BufferCall::Tts { speaker_id, options }),
            ),
    {
        if let Some(e) = self.admission(speaker_id) {
            return Err(e);
        }
        if has_nul(text) {
            return Err(CoreError::NulInText);
        }
        Ok(BufferCall::Tts { speaker_id, options })
    }
}

/// Whether `s` holds a NUL character.
pub fn has_nul(s: &str) -> (r: bool)
    ensures
        r == spec_has_nul(s@),
{
    let n = s.unicode_len();
    let mut i: usize = 0;
    while i < n
        invariant
            n == s@.len(),
            i <= n,
            forall|j: int| 0 <= j < i ==> s@[j] != '\0',
        decreases n - i,
    {
        if s.get_char(i) == '\0' {
            return true;
        }
        i = i + 1;
    }
    false
}



/// A handle that is not initialized lets no stage of text-to-speech through:
/// every stage answers with the uninitialized-status error, whatever its
/// inputs.
pub proof fn lemma_uninitialized_rejects_every_stage<C>(
    core: VoicevoxCore,
    speaker_id: u32,
    shape: Option<CoreError>,
    call: C,
)
    requires
        !core.spec_initialized(),
    ensures
        core.stage_result(speaker_id, shape, call) == Err::<C, CoreError>(
            CoreError::Engine(ResultCode::UninitializedStatusError),
        ),
{
}

/// On an initialized handle, a stage for a speaker whose model is not
/// loaded fails with the invalid-speaker error, whatever its other inputs.
pub proof fn lemma_unloaded_speaker_rejected<C>(
    core: VoicevoxCore,
    speaker_id: u32,
    shape: Option<CoreError>,
    call: C,
)
    requires
        core.spec_initialized(),
        !core.spec_is_model_loaded(speaker_id),
    ensures
        core.stage_result(speaker_id, shape, call) == Err::<C, CoreError>(
            CoreError::Engine(ResultCode::InvalidSpeakerIdError),
        ),
{
}

/// After a successful model load (the state `complete_load_model` leaves
/// when it returns `Ok`), the model counts as loaded and no stage for that
/// speaker fails on that account: each fails only by its own input check.
pub proof fn lemma_loaded_speaker_admitted<C>(
    before: VoicevoxCore,
    after: VoicevoxCore,
    speaker_id: u32,
    shape: Option<CoreError>,
    call: C,
)
    requires
        before.spec_initialized(),
        after.spec_status() == before.spec_status(),
        after.spec_load_all_models() == before.spec_load_all_models(),
        after.loaded_speakers() == before.loaded_speakers().insert(speaker_id),
    ensures
        after.spec_is_model_loaded(speaker_id),
        after.stage_result(speaker_id, shape, call) == (match shape {
            Some(e) => Err(e),
            None => Ok(call),
        }),
{
    assert(after.loaded_speakers().contains(speaker_id));
}

/// Six intonation inputs whose lengths are not all equal are refused with
/// the length-mismatch fault and produce no engine call, once the handle is
/// initialized and the speaker's model loaded.
pub proof fn lemma_intonation_mismatch_refused(
    core: VoicevoxCore,
    speaker_id: u32,
    a: nat,
    b: nat,
    c: nat,
    d: nat,
    e: nat,
    f: nat,
    call: BufferCall,
)
    requires
        core.admission_error(speaker_id) is None,
        !(a == b && a == c && a == d && a == e && a == f),
    ensures
        core.stage_result(speaker_id, intonation_shape_error(a, b, c, d, e, f), call) == Err::<
            BufferCall,
            CoreError,
        >(CoreError::LengthMismatch),
{
}

/// Decode never divides by zero and never truncates: an empty phoneme input
/// or an F0 length that is no whole multiple of it is an invalid audio
/// query, and where the inputs pass, the frame factor is positive and
/// multiplies back to the F0 length exactly.
pub proof fn lemma_decode_frame_ratio(
    core: VoicevoxCore,
    speaker_id: u32,
    phoneme_len: nat,
    f0_len: nat,
    call: BufferCall,
)
    requires
        core.admission_error(speaker_id) is None,
    ensures
        (phoneme_len == 0 || f0_len % phoneme_len != 0) ==> core.stage_result(
            speaker_id,
            decode_shape_error(phoneme_len, f0_len),
            call,
        ) == Err::<BufferCall, CoreError>(CoreError::Engine(ResultCode::InvalidAudioQueryError)),
        decode_shape_error(phoneme_len, f0_len) is None ==> phoneme_len > 0 && f0_len / phoneme_len
            > 0 && (f0_len / phoneme_len) * phoneme_len == f0_len,
{
    if decode_shape_error(phoneme_len, f0_len) is None {
        vstd::arithmetic::div_mod::lemma_fundamental_div_mod(f0_len as int, phoneme_len as int);
        assert((f0_len / phoneme_len) * phoneme_len == f0_len) by (nonlinear_arith)
            requires
                f0_len == phoneme_len * (f0_len / phoneme_len) + f0_len % phoneme_len,
                f0_len % phoneme_len == 0,
        ;
        if f0_len / phoneme_len == 0 {
            assert(f0_len == 0);
        }
    }
}

/// The two routes from text to speech are let through alike: text
/// analysis is accepted exactly when the composite text-to-speech call is,
/// and then synthesis of the resulting query (a C string, so free of NUL) is
/// accepted too. Both routes hand back a WAV buffer with the same deallocator.
pub proof fn lemma_query_then_synthesis_matches_tts(
    core: VoicevoxCore,
    text: Seq<char>,
    query: Seq<char>,
    speaker_id: u32,
    query_options: AudioQueryOptions,
    synthesis_options: SynthesisOptions,
    tts_options: Option<TtsOptions>,
)
    requires
        !spec_has_nul(query),
    ensures
        core.stage_result(
            speaker_id,
            text_shape_error(text),
            (AudioQueryCall { speaker_id, options: query_options }),
        ) is Ok <==> core.stage_result(
            speaker_id,
            text_shape_error(text),
            (BufferCall::Tts { speaker_id, options: tts_options }),
        ) is Ok,
        core.stage_result(
            speaker_id,
            text_shape_error(text),
            (AudioQueryCall { speaker_id, options: query_options }),
        ) is Ok ==> core.stage_result(
            speaker_id,
            text_shape_error(query),
            (BufferCall::Synthesis { speaker_id, options: synthesis_options }),
        ) is Ok,
        (BufferCall::Synthesis { speaker_id, options: synthesis_options }).spec_free_fn()
            == FreeFn::Wav,
        (BufferCall::Tts { speaker_id, options: tts_options }).spec_free_fn() == FreeFn::Wav,
{
}

} // verus!
