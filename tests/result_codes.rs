use vvcore::options::AccelerationMode;
use vvcore::result_code::{check_code, CoreError, ResultCode};

const ALL: [ResultCode; 14] = [
    ResultCode::Success,
    ResultCode::NotLoadedOpenjtalkDictError,
    ResultCode::LoadModelError,
    ResultCode::GetSupportedDevicesError,
    ResultCode::GpuSupportError,
    ResultCode::LoadMetasError,
    ResultCode::UninitializedStatusError,
    ResultCode::InvalidSpeakerIdError,
    ResultCode::InvalidModelIndexError,
    ResultCode::InferenceError,
    ResultCode::ExtractFullContextLabelError,
    ResultCode::InvalidUtf8InputError,
    ResultCode::ParseKanaError,
    ResultCode::InvalidAudioQueryError,
];

#[test]
fn codes_follow_the_engine_table() {
    for (i, rc) in ALL.iter().enumerate() {
        assert_eq!(rc.code(), i as i32);
    }
    assert_eq!(ResultCode::InvalidSpeakerIdError.code(), 7);
    assert_eq!(ResultCode::InvalidAudioQueryError.code(), 13);
}

#[test]
fn every_code_round_trips() {
    for rc in ALL.iter() {
        assert_eq!(ResultCode::from_code(rc.code()), Some(*rc));
    }
}

#[test]
fn unknown_codes_are_not_reinterpreted() {
    assert_eq!(ResultCode::from_code(14), None);
    assert_eq!(ResultCode::from_code(-1), None);
    assert_eq!(ResultCode::from_code(i32::MAX), None);
    assert_eq!(check_code(14), Err(CoreError::UnknownCode(14)));
    assert_eq!(check_code(-3), Err(CoreError::UnknownCode(-3)));
}

#[test]
fn zero_is_success_and_nothing_else_is() {
    assert_eq!(check_code(0), Ok(()));
    assert_eq!(check_code(1), Err(CoreError::Engine(ResultCode::NotLoadedOpenjtalkDictError)));
    assert_eq!(check_code(4), Err(CoreError::Engine(ResultCode::GpuSupportError)));
    assert_eq!(check_code(9), Err(CoreError::Engine(ResultCode::InferenceError)));
    assert_eq!(check_code(12), Err(CoreError::Engine(ResultCode::ParseKanaError)));
}

#[test]
fn acceleration_mode_codes() {
    assert_eq!(AccelerationMode::Auto.code(), 0);
    assert_eq!(AccelerationMode::CPU.code(), 1);
    assert_eq!(AccelerationMode::GPU.code(), 2);
}
