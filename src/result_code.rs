use vstd::prelude::*;

verus! {

/// Status codes that every call into the native engine returns.
#[derive(Debug, Clone, Copy, PartialEq, Eq, Structural)]
pub enum ResultCode {
    /// Success
    Success,
    /// Failed to load Open JTalk dictionary file
    NotLoadedOpenjtalkDictError,
    /// Failed to load the model
    LoadModelError,
    /// Failed to get supported device information
    GetSupportedDevicesError,
    /// GPU mode is not supported
    GpuSupportError,
    /// Failed to load meta information
    LoadMetasError,
    /// Status is uninitialized
    UninitializedStatusError,
    /// Invalid speaker ID specified
    InvalidSpeakerIdError,
    /// Invalid model index specified
    InvalidModelIndexError,
    /// Inference failed
    InferenceError,
    /// Failed to output context labels
    ExtractFullContextLabelError,
    /// Invalid UTF-8 string input
    InvalidUtf8InputError,
    /// Failed to parse Aquestalk-style text
    ParseKanaError,
    /// Invalid AudioQuery
    InvalidAudioQueryError,
}

impl ResultCode {
    /// The integer the engine uses for this outcome.
    pub open spec fn spec_code(self) -> i32 {
        match self {
            ResultCode::Success => 0,
            ResultCode::NotLoadedOpenjtalkDictError => 1,
            ResultCode::LoadModelError => 2,
            ResultCode::GetSupportedDevicesError => 3,
            ResultCode::GpuSupportError => 4,
            ResultCode::LoadMetasError => 5,
            ResultCode::UninitializedStatusError => 6,
            ResultCode::InvalidSpeakerIdError => 7,
            ResultCode::InvalidModelIndexError => 8,
            ResultCode::InferenceError => 9,
            ResultCode::ExtractFullContextLabelError => 10,
            ResultCode::InvalidUtf8InputError => 11,
            ResultCode::ParseKanaError => 12,
            ResultCode::InvalidAudioQueryError => 13,
        }
    }

    /// The member whose code is `code`, if the code is one this library knows.
    pub open spec fn spec_from_code(code: i32) -> Option<ResultCode> {
        if code == 0 {
            Some(ResultCode::Success)
        } else if code == 1 {
            Some(ResultCode::NotLoadedOpenjtalkDictError)
        } else if code == 2 {
            Some(ResultCode::LoadModelError)
        } else if code == 3 {
            Some(ResultCode::GetSupportedDevicesError)
        } else if code == 4 {
            Some(ResultCode::GpuSupportError)
        } else if code == 5 {
            Some(ResultCode::LoadMetasError)
        } else if code == 6 {
            Some(ResultCode::UninitializedStatusError)
        } else if code == 7 {
            Some(ResultCode::InvalidSpeakerIdError)
        } else if code == 8 {
            Some(ResultCode::InvalidModelIndexError)
        } else if code == 9 {
            Some(ResultCode::InferenceError)
        } else if code == 10 {
            Some(ResultCode::ExtractFullContextLabelError)
        } else if code == 11 {
            Some(ResultCode::InvalidUtf8InputError)
        } else if code == 12 {
            Some(ResultCode::ParseKanaError)
        } else if code == 13 {
            Some(ResultCode::InvalidAudioQueryError)
        } else {
            None
        }
    }

    /// The integer the engine uses for this outcome.
    pub fn code(&self) -> (r: i32)
        ensures
            r == self.spec_code(),
    {
        match self {
            ResultCode::Success => 0,
            ResultCode::NotLoadedOpenjtalkDictError => 1,
            ResultCode::LoadModelError => 2,
            ResultCode::GetSupportedDevicesError => 3,
            ResultCode::GpuSupportError => 4,
            ResultCode::LoadMetasError => 5,
            ResultCode::UninitializedStatusError => 6,
            ResultCode::InvalidSpeakerIdError => 7,
            ResultCode::InvalidModelIndexError => 8,
            ResultCode::InferenceError => 9,
            ResultCode::ExtractFullContextLabelError => 10,
            ResultCode::InvalidUtf8InputError => 11,
            ResultCode::ParseKanaError => 12,
            ResultCode::InvalidAudioQueryError => 13,
        }
    }

    /// Table lookup from an engine status code; `None` for a code this
    /// library does not know (for instance one added by a later engine).
    pub fn from_code(code: i32) -> (r: Option<ResultCode>)
        ensures
            r == Self::spec_from_code(code),
    {
        match code {
            0 => Some(ResultCode::Success),
            1 => Some(ResultCode::NotLoadedOpenjtalkDictError),
            2 => Some(ResultCode::LoadModelError),
            3 => Some(ResultCode::GetSupportedDevicesError),
            4 => Some(ResultCode::GpuSupportError),
            5 => Some(ResultCode::LoadMetasError),
            6 => Some(ResultCode::UninitializedStatusError),
            7 => Some(ResultCode::InvalidSpeakerIdError),
            8 => Some(ResultCode::InvalidModelIndexError),
            9 => Some(ResultCode::InferenceError),
            10 => Some(ResultCode::ExtractFullContextLabelError),
            11 => Some(ResultCode::InvalidUtf8InputError),
            12 => Some(ResultCode::ParseKanaError),
            13 => Some(ResultCode::InvalidAudioQueryError),
            _ => None,
        }
    }
}

/// Why an operation of this library failed.
///
/// `Engine` carries a failure the engine reported (never `ResultCode::Success`).
/// The other variants are faults: a code outside the known table, or a call
/// whose inputs break a precondition of the engine and was therefore never
/// made.
#[derive(Debug, Clone, Copy, PartialEq, Eq, Structural)]
pub enum CoreError {
    /// A failure reported by the engine, or one the engine would report.
    Engine(ResultCode),
    /// The engine returned a status code that is not in the table.
    UnknownCode(i32),
    /// The six intonation inputs do not all have the same length.
    LengthMismatch,
    /// A text holds a NUL character, which cannot cross the boundary.
    NulInText,
}

/// What a status code means: success for `0`, the named failure for a known
/// code, and `UnknownCode` for any other.
pub open spec fn spec_check_code(code: i32) -> Result<(), CoreError> {
    if code == 0 {
        Ok(())
    } else {
        match ResultCode::spec_from_code(code) {
            Some(rc) => Err(CoreError::Engine(rc)),
            None => Err(CoreError::UnknownCode(code)),
        }
    }
}

/// Classifies a status code returned by the engine.
pub fn check_code(code: i32) -> (r: Result<(), CoreError>)
    ensures
        r == spec_check_code(code),
{
    if code == 0 {
        Ok(())
    } else {
        match ResultCode::from_code(code) {
            Some(rc) => Err(CoreError::Engine(rc)),
            None => Err(CoreError::UnknownCode(code)),
        }
    }
}

/// Every member converts to its code and back to itself.
pub proof fn lemma_code_round_trip(rc: ResultCode)
    ensures
        ResultCode::spec_from_code(rc.spec_code()) == Some(rc),
{
}

/// The table is one to one: a code maps to a member only if that member's
/// code is the code, and codes outside `0..=13` map to nothing.
pub proof fn lemma_code_table_exact(code: i32)
    ensures
        ResultCode::spec_from_code(code) matches Some(rc) ==> rc.spec_code() == code,
        ResultCode::spec_from_code(code) is None <==> (code < 0 || code > 13),
{
}

/// Success is exactly the code `0`; every other code is an error that never
/// claims success.
pub proof fn lemma_check_code_success_iff_zero(code: i32)
    ensures
        spec_check_code(code) is Ok <==> code == 0,
        spec_check_code(code) != Err::<(), CoreError>(CoreError::Engine(ResultCode::Success)),
{
}

} // verus!
