use vvcore::engine::{has_nul, AudioQueryCall, BufferCall, LoadModelCall, VoicevoxCore};
use vvcore::foreign::{CPointerWrap, FreeFn};
use vvcore::options::{
    AccelerationMode, AudioQueryOptions, InitializeOptions, SynthesisOptions, TtsOptions,
};
use vvcore::result_code::{CoreError, ResultCode};

fn options(load_all_models: bool) -> InitializeOptions {
    InitializeOptions::new(AccelerationMode::CPU, 2, load_all_models, String::from("dict"))
}

fn ready_core(speaker_id: u32) -> VoicevoxCore {
    let mut core = VoicevoxCore::new(&options(false), 0).unwrap();
    let call = core.load_model(speaker_id).unwrap().unwrap();
    core.complete_load_model(&call, 0).unwrap();
    core
}

const UNINIT: CoreError = CoreError::Engine(ResultCode::UninitializedStatusError);
const BAD_SPEAKER: CoreError = CoreError::Engine(ResultCode::InvalidSpeakerIdError);
const BAD_QUERY: CoreError = CoreError::Engine(ResultCode::InvalidAudioQueryError);

#[test]
fn initialize_options_keep_their_settings() {
    let o = InitializeOptions::new(AccelerationMode::GPU, 8, true, String::from("/d"));
    assert_eq!(o.acceleration_mode, AccelerationMode::GPU);
    assert_eq!(o.cpu_num_threads, 8);
    assert!(o.load_all_models);
    assert_eq!(o.open_jtalk_dict_dir, "/d");
}

#[test]
fn initialization_outcomes() {
    let core = VoicevoxCore::new(&options(false), 0).unwrap();
    assert!(core.is_initialized());
    assert!(!core.is_model_loaded(1));
    assert!(matches!(
        VoicevoxCore::new(&options(false), 1),
        Err(CoreError::Engine(ResultCode::NotLoadedOpenjtalkDictError))
    ));
    assert!(matches!(
        VoicevoxCore::new(&options(false), 4),
        Err(CoreError::Engine(ResultCode::GpuSupportError))
    ));
    assert!(matches!(VoicevoxCore::new(&options(false), 40), Err(CoreError::UnknownCode(40))));
}

#[test]
fn finalize_is_due_once() {
    let mut core = VoicevoxCore::new(&options(false), 0).unwrap();
    assert!(core.finalize());
    assert!(!core.is_initialized());
    assert!(!core.finalize());
}

#[test]
fn happy_path_init_load_and_tts_simple() {
    let mut core = VoicevoxCore::new(&options(false), 0).unwrap();
    let call = core.load_model(1).unwrap();
    assert_eq!(call, Some(LoadModelCall { speaker_id: 1 }));
    assert_eq!(core.complete_load_model(&call.unwrap(), 0), Ok(()));
    assert!(core.is_model_loaded(1));
    let tts = core.tts_simple("こんにちは", 1).unwrap();
    assert_eq!(tts, BufferCall::Tts { speaker_id: 1, options: None });
    let wav: CPointerWrap<u8> = tts.complete(0, 0x4000, 1024).unwrap();
    assert_eq!(wav.len(), 1024);
    assert_eq!(wav.free_fn(), FreeFn::Wav);
}

#[test]
fn load_model_is_idempotent() {
    let core = ready_core(3);
    assert_eq!(core.load_model(3), Ok(None));
    assert_eq!(core.load_model(4), Ok(Some(LoadModelCall { speaker_id: 4 })));
}

#[test]
fn failed_load_records_nothing() {
    let mut core = VoicevoxCore::new(&options(false), 0).unwrap();
    let call = core.load_model(5).unwrap().unwrap();
    assert_eq!(core.complete_load_model(&call, 2), Err(CoreError::Engine(ResultCode::LoadModelError)));
    assert!(!core.is_model_loaded(5));
    assert_eq!(core.complete_load_model(&call, 7), Err(BAD_SPEAKER));
    assert!(!core.is_model_loaded(5));
}

#[test]
fn load_all_models_makes_every_speaker_ready() {
    let core = VoicevoxCore::new(&options(true), 0).unwrap();
    assert!(core.is_model_loaded(0));
    assert!(core.is_model_loaded(42));
    assert!(core.predict_duration(&[1, 2], 42).is_ok());
}

#[test]
fn predict_duration_empty_is_a_valid_call() {
    let core = ready_core(1);
    let call = core.predict_duration(&[], 1).unwrap();
    assert_eq!(call, BufferCall::PredictDuration { length: 0, speaker_id: 1 });
    let out: CPointerWrap<u8> = call.complete(0, 0x10, 0).unwrap();
    assert_eq!(out.len(), 0);
}

#[test]
fn predict_duration_carries_the_length() {
    let core = ready_core(1);
    assert_eq!(
        core.predict_duration(&[0, 23, 30, 4, 0], 1),
        Ok(BufferCall::PredictDuration { length: 5, speaker_id: 1 })
    );
}

#[test]
fn finalized_handle_refuses_every_stage() {
    let mut core = ready_core(1);
    core.finalize();
    assert_eq!(core.load_model(1), Err(UNINIT));
    assert_eq!(core.predict_duration(&[1], 1), Err(UNINIT));
    assert_eq!(core.predict_intonation(&[1], &[1, 2], &[1], &[1], &[1], &[1], 1), Err(UNINIT));
    assert_eq!(core.decode(&[1u8], &[], 1), Err(UNINIT));
    assert_eq!(core.tts_simple("a", 1), Err(UNINIT));
    assert_eq!(
        core.tts("a", 1, TtsOptions { kana: false, enable_interrogative_upspeak: true }),
        Err(UNINIT)
    );
    assert_eq!(core.audio_query("a", 1, AudioQueryOptions { kana: false }), Err(UNINIT));
    assert_eq!(
        core.synthesis("{}", 1, SynthesisOptions { enable_interrogative_upspeak: false }),
        Err(UNINIT)
    );
    let call = LoadModelCall { speaker_id: 9 };
    assert_eq!(core.complete_load_model(&call, 0), Err(UNINIT));
    assert!(!core.is_model_loaded(9));
}

#[test]
fn unloaded_speaker_is_refused_until_loaded() {
    let mut core = ready_core(1);
    assert_eq!(core.predict_duration(&[1], 2), Err(BAD_SPEAKER));
    assert_eq!(core.decode(&[1u8], &[1, 2], 2), Err(BAD_SPEAKER));
    assert_eq!(core.tts_simple("a", 2), Err(BAD_SPEAKER));
    assert_eq!(core.audio_query("a", 2, AudioQueryOptions { kana: false }), Err(BAD_SPEAKER));
    let call = core.load_model(2).unwrap().unwrap();
    core.complete_load_model(&call, 0).unwrap();
    assert!(core.is_model_loaded(2));
    assert!(core.predict_duration(&[1], 2).is_ok());
    assert!(core.tts_simple("a", 2).is_ok());
}

#[test]
fn intonation_lengths_must_agree() {
    let core = ready_core(1);
    let a = [1i64, 2, 3];
    let short = [1i64, 2];
    assert_eq!(
        core.predict_intonation(&a, &a, &a, &a, &a, &a, 1),
        Ok(BufferCall::PredictIntonation { length: 3, speaker_id: 1 })
    );
    for k in 0..6 {
        let mut v: [&[i64]; 6] = [&a, &a, &a, &a, &a, &a];
        v[k] = &short;
        assert_eq!(
            core.predict_intonation(v[0], v[1], v[2], v[3], v[4], v[5], 1),
            Err(CoreError::LengthMismatch)
        );
    }
}

#[test]
fn decode_frame_ratio() {
    let core = ready_core(1);
    let phonemes = [0.5f32, 0.25, 0.0];
    let f0 = [1.0f32; 12];
    assert_eq!(
        core.decode(&phonemes, &f0, 1),
        Ok(BufferCall::Decode { phoneme_length: 3, frames_per_phoneme: 4, speaker_id: 1 })
    );
    assert_eq!(core.decode(&[] as &[f32], &f0, 1), Err(BAD_QUERY));
    assert_eq!(core.decode(&[] as &[f32], &[] as &[f32], 1), Err(BAD_QUERY));
    assert_eq!(core.decode(&phonemes, &[1.0f32; 10], 1), Err(BAD_QUERY));
    assert_eq!(core.decode(&phonemes, &[] as &[f32], 1), Err(BAD_QUERY));
    assert_eq!(core.decode(&phonemes, &[1.0f32; 2], 1), Err(BAD_QUERY));
}

#[test]
fn text_with_nul_never_crosses() {
    let core = ready_core(1);
    assert!(has_nul("a\0b"));
    assert!(!has_nul("こんにちは"));
    assert!(!has_nul(""));
    assert_eq!(core.tts_simple("a\0", 1), Err(CoreError::NulInText));
    assert_eq!(core.audio_query("\0", 1, AudioQueryOptions { kana: true }), Err(CoreError::NulInText));
    assert_eq!(
        core.synthesis("{\0}", 1, SynthesisOptions { enable_interrogative_upspeak: true }),
        Err(CoreError::NulInText)
    );
}

#[test]
fn query_then_synthesis_goes_through_like_tts() {
    let core = ready_core(1);
    let aq = core.audio_query("こんにちは", 1, AudioQueryOptions { kana: false });
    assert_eq!(aq, Ok(AudioQueryCall { speaker_id: 1, options: AudioQueryOptions { kana: false } }));
    let opts = TtsOptions { kana: false, enable_interrogative_upspeak: true };
    let tts = core.tts("こんにちは", 1, opts).unwrap();
    assert_eq!(tts, BufferCall::Tts { speaker_id: 1, options: Some(opts) });
    let synth = core
        .synthesis("{\"accent_phrases\":[]}", 1, SynthesisOptions { enable_interrogative_upspeak: true })
        .unwrap();
    assert_eq!(synth.free_fn(), tts.free_fn());
    assert_eq!(synth.free_fn(), FreeFn::Wav);
}
