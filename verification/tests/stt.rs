use handy::stt::audio::{check_wav_format, needs_resample, resample_padded_len, WavSamples};
use handy::stt::catalog::{builtin_models, find_model, EngineType};
use handy::stt::error::{ArgName, SttError};
use handy::stt::host::{whisper_language, Reply, Step, SttState, TranscriptionPlan};
use handy::stt::request::{command_name, parse_command, Command, CommandName, RequestArgs};

fn no_args() -> RequestArgs {
    RequestArgs {
        language: None,
        translate: None,
        model_id: None,
        sample_rate: None,
        session_id: None,
        encoding: None,
        data: None,
        path: None,
    }
}

fn run(state: &mut SttState, cmd: &str, args: RequestArgs, downloaded: &Vec<bool>) -> Result<Step, SttError> {
    let c = parse_command(cmd, &args)?;
    state.apply(c, downloaded)
}

fn none_downloaded() -> Vec<bool> {
    vec![false; 6]
}

#[test]
fn catalog_has_six_models_with_distinct_ids() {
    let m = builtin_models();
    assert_eq!(m.len(), 6);
    assert_eq!(m[0].id, "small");
    assert_eq!(m[2].size_mb, 1600);
    assert_eq!(m[4].engine_type, EngineType::Parakeet);
    assert!(m[5].is_directory);
    assert_eq!(m[5].url, Some("https://blob.handy.computer/parakeet-v3-int8.tar.gz"));
    for i in 0..6 {
        assert_eq!(find_model(&m, m[i].id), Some(i));
    }
    assert_eq!(find_model(&m, "tiny"), None);
}

#[test]
fn model_file_names() {
    let m = builtin_models();
    assert_eq!(m[0].partial_file_name(), "ggml-small.bin.partial");
    assert_eq!(m[4].extracting_dir_name(), "parakeet-tdt-0.6b-v2-int8.extracting");
    assert!(m[4].is_present(true, true, false));
    assert!(!m[4].is_present(true, false, true));
    assert!(m[0].is_present(true, false, true));
    assert!(!m[0].is_present(false, false, true));
}

#[test]
fn command_names() {
    assert_eq!(command_name("ping"), Some(CommandName::Ping));
    assert_eq!(command_name("transcribe_wav"), Some(CommandName::TranscribeWav));
    assert_eq!(command_name("Ping"), None);
}

#[test]
fn ping_answers_version_one() {
    let mut s = SttState::new();
    match run(&mut s, "ping", no_args(), &none_downloaded()) {
        Ok(Step::Reply(Reply::Version(v))) => assert_eq!(v, 1),
        _ => panic!("version expected"),
    }
}

#[test]
fn unknown_command_is_reported() {
    let mut s = SttState::new();
    match run(&mut s, "dance", no_args(), &none_downloaded()) {
        Err(e) => assert_eq!(e.message(), "unknown cmd: dance"),
        _ => panic!("error expected"),
    }
}

#[test]
fn missing_arguments_are_reported() {
    let mut s = SttState::new();
    for (cmd, msg) in [
        ("download_model", "missing args.model_id"),
        ("load_model", "missing args.model_id"),
        ("push_audio", "missing args.session_id"),
        ("finish_transcribe", "missing args.session_id"),
        ("transcribe_wav", "missing args.path"),
    ] {
        match run(&mut s, cmd, no_args(), &none_downloaded()) {
            Err(e) => assert_eq!(e.message(), msg),
            _ => panic!("error expected"),
        }
    }
    let mut a = no_args();
    a.session_id = Some(1);
    match run(&mut s, "push_audio", a, &none_downloaded()) {
        Err(e) => assert_eq!(e.message(), "missing args.data"),
        _ => panic!("error expected"),
    }
}

#[test]
fn push_audio_rejects_other_encodings() {
    let mut a = no_args();
    a.session_id = Some(1);
    a.encoding = Some("opus".to_string());
    a.data = Some("AAAA".to_string());
    match parse_command("push_audio", &a) {
        Err(SttError::UnsupportedEncoding(e)) => assert_eq!(e, "opus"),
        _ => panic!("error expected"),
    }
}

#[test]
fn start_session_rate_defaults_and_truncates() {
    match parse_command("start_session", &no_args()) {
        Ok(Command::StartSession(r)) => assert_eq!(r, 16000),
        _ => panic!(),
    }
    let mut a = no_args();
    a.sample_rate = Some((1u64 << 32) + 8000);
    match parse_command("start_session", &a) {
        Ok(Command::StartSession(r)) => assert_eq!(r, 8000),
        _ => panic!(),
    }
}

#[test]
fn session_round_trip() {
    let mut s = SttState::new();
    let mut a = no_args();
    a.sample_rate = Some(44100);
    let id = match run(&mut s, "start_session", a, &none_downloaded()) {
        Ok(Step::Reply(Reply::SessionStarted(id))) => id,
        _ => panic!(),
    };
    assert_eq!(id, 1);
    let mut p = no_args();
    p.session_id = Some(id);
    p.data = Some("AQD//wCA".to_string());
    assert!(matches!(run(&mut s, "push_audio", p, &none_downloaded()), Ok(Step::Reply(Reply::Pushed))));
    let mut p = no_args();
    p.session_id = Some(id);
    p.encoding = Some("pcm_s16le".to_string());
    p.data = Some("NBI=".to_string());
    assert!(matches!(run(&mut s, "push_audio", p, &none_downloaded()), Ok(Step::Reply(Reply::Pushed))));
    let mut f = no_args();
    f.session_id = Some(id);
    match run(&mut s, "finish_transcribe", f, &none_downloaded()) {
        Ok(Step::Transcribe { samples, sample_rate }) => {
            assert_eq!(samples, vec![1, -1, -32768, 0x1234]);
            assert_eq!(sample_rate, 44100);
        }
        _ => panic!("samples expected"),
    }
    let mut f = no_args();
    f.session_id = Some(id);
    match run(&mut s, "finish_transcribe", f, &none_downloaded()) {
        Err(e) => assert_eq!(e.message(), "no active session"),
        _ => panic!(),
    }
}

#[test]
fn session_ids_count_up() {
    let mut s = SttState::new();
    let a = match run(&mut s, "start_session", no_args(), &none_downloaded()) {
        Ok(Step::Reply(Reply::SessionStarted(id))) => id,
        _ => panic!(),
    };
    let b = match run(&mut s, "start_session", no_args(), &none_downloaded()) {
        Ok(Step::Reply(Reply::SessionStarted(id))) => id,
        _ => panic!(),
    };
    assert_eq!((a, b), (1, 2));
}

#[test]
fn push_errors() {
    let mut s = SttState::new();
    let mut p = no_args();
    p.session_id = Some(1);
    p.data = Some("AAAA".to_string());
    match run(&mut s, "push_audio", p, &none_downloaded()) {
        Err(e) => assert_eq!(e.message(), "no active session"),
        _ => panic!(),
    }
    let id = s.session.start(16000);
    let mut p = no_args();
    p.session_id = Some(id + 1);
    p.data = Some("AAAA".to_string());
    match run(&mut s, "push_audio", p, &none_downloaded()) {
        Err(e) => assert_eq!(e.message(), "session mismatch"),
        _ => panic!(),
    }
    let mut p = no_args();
    p.session_id = Some(id);
    p.data = Some("AQID".to_string());
    match run(&mut s, "push_audio", p, &none_downloaded()) {
        Err(e) => assert_eq!(e.message(), "invalid pcm_s16le payload length"),
        _ => panic!(),
    }
    let mut p = no_args();
    p.session_id = Some(id);
    p.data = Some("!!".to_string());
    match run(&mut s, "push_audio", p, &none_downloaded()) {
        Err(e) => assert!(e.message().starts_with("invalid base64 audio: ")),
        _ => panic!(),
    }
    assert!(s.session.audio.is_empty());
}

#[test]
fn finishing_another_session_closes_the_open_one() {
    let mut s = SttState::new();
    let id = s.session.start(16000);
    let mut f = no_args();
    f.session_id = Some(id + 5);
    match run(&mut s, "finish_transcribe", f, &none_downloaded()) {
        Err(e) => assert_eq!(e.message(), "session mismatch"),
        _ => panic!(),
    }
    assert_eq!(s.session.current, None);
}

#[test]
fn download_is_exclusive() {
    let mut s = SttState::new();
    let mut a = no_args();
    a.model_id = Some("turbo".to_string());
    assert!(matches!(run(&mut s, "download_model", a, &none_downloaded()), Ok(Step::StartDownload(2))));
    assert_eq!(s.downloading, Some("turbo".to_string()));
    let mut a = no_args();
    a.model_id = Some("small".to_string());
    match run(&mut s, "download_model", a, &none_downloaded()) {
        Err(e) => assert_eq!(e.message(), "another model is downloading"),
        _ => panic!(),
    }
    s.download_finished();
    let mut a = no_args();
    a.model_id = Some("small".to_string());
    assert!(matches!(run(&mut s, "download_model", a, &none_downloaded()), Ok(Step::StartDownload(0))));
}

#[test]
fn download_unknown_model() {
    let mut s = SttState::new();
    let mut a = no_args();
    a.model_id = Some("huge".to_string());
    match run(&mut s, "download_model", a, &none_downloaded()) {
        Err(e) => assert_eq!(e.message(), "unknown model_id: huge"),
        _ => panic!(),
    }
    assert_eq!(s.downloading, None);
}

#[test]
fn load_model_checks_catalog_and_disk() {
    let mut s = SttState::new();
    let mut a = no_args();
    a.model_id = Some("medium".to_string());
    match run(&mut s, "load_model", a, &none_downloaded()) {
        Err(e) => assert_eq!(e.message(), "model not downloaded: medium"),
        _ => panic!(),
    }
    let mut on_disk = none_downloaded();
    on_disk[1] = true;
    let mut a = no_args();
    a.model_id = Some("medium".to_string());
    assert!(matches!(run(&mut s, "load_model", a, &on_disk), Ok(Step::LoadEngine(1))));
    assert!(matches!(s.transcription_plan(), Err(SttError::ModelNotLoaded)));
    s.engine_loaded(1);
    match s.transcription_plan() {
        Ok(TranscriptionPlan::Whisper { language, translate }) => {
            assert_eq!(language, None);
            assert!(!translate);
        }
        _ => panic!(),
    }
    assert!(matches!(run(&mut s, "unload_model", no_args(), &on_disk), Ok(Step::Reply(Reply::Unloaded))));
    assert!(s.loaded.is_none());
}

#[test]
fn parakeet_plan() {
    let mut s = SttState::new();
    s.engine_loaded(5);
    assert!(matches!(s.transcription_plan(), Ok(TranscriptionPlan::Parakeet)));
}

#[test]
fn language_and_translate_settings() {
    let mut s = SttState::new();
    let mut a = no_args();
    a.language = Some("zh-Hant".to_string());
    assert!(matches!(run(&mut s, "set_language", a, &none_downloaded()), Ok(Step::Reply(Reply::Empty))));
    let mut a = no_args();
    a.translate = Some(true);
    assert!(matches!(run(&mut s, "set_translate", a, &none_downloaded()), Ok(Step::Reply(Reply::Empty))));
    s.engine_loaded(0);
    match s.transcription_plan() {
        Ok(TranscriptionPlan::Whisper { language, translate }) => {
            assert_eq!(language, Some("zh".to_string()));
            assert!(translate);
        }
        _ => panic!(),
    }
    assert!(matches!(run(&mut s, "set_translate", no_args(), &none_downloaded()), Ok(_)));
    assert!(!s.translate);
}

#[test]
fn whisper_language_mapping() {
    assert_eq!(whisper_language(&None), None);
    assert_eq!(whisper_language(&Some("auto".to_string())), None);
    assert_eq!(whisper_language(&Some("zh-Hans".to_string())), Some("zh".to_string()));
    assert_eq!(whisper_language(&Some("de".to_string())), Some("de".to_string()));
}

#[test]
fn list_models_reports_state() {
    let mut s = SttState::new();
    let mut a = no_args();
    a.model_id = Some("large".to_string());
    let _ = run(&mut s, "download_model", a, &none_downloaded());
    let mut on_disk = none_downloaded();
    on_disk[0] = true;
    match run(&mut s, "list_models", no_args(), &on_disk) {
        Ok(Step::Reply(Reply::Models(infos))) => {
            assert_eq!(infos.len(), 6);
            assert_eq!(infos[0].id, "small");
            assert!(infos[0].is_downloaded);
            assert!(!infos[0].is_downloading);
            assert!(infos[3].is_downloading);
            assert_eq!(infos[3].name, "Whisper Large");
            assert_eq!(infos[4].description, "English only. The best model for English speakers.");
        }
        _ => panic!(),
    }
}

#[test]
fn transcribe_wav_passes_path() {
    let mut s = SttState::new();
    let mut a = no_args();
    a.path = Some("/tmp/a.wav".to_string());
    match run(&mut s, "transcribe_wav", a, &none_downloaded()) {
        Ok(Step::TranscribeWav(p)) => assert_eq!(p, "/tmp/a.wav"),
        _ => panic!(),
    }
}

#[test]
fn wav_format_checks() {
    assert!(matches!(check_wav_format(2, true, 32), Err(SttError::WavNotMono)));
    assert_eq!(SttError::WavNotMono.message(), "wav must be mono (channels=1)");
    assert!(matches!(check_wav_format(1, true, 32), Ok(WavSamples::Float)));
    assert!(matches!(check_wav_format(1, false, 16), Ok(WavSamples::Int16)));
    match check_wav_format(1, false, 24) {
        Err(e) => assert_eq!(e.message(), "unsupported int wav bits_per_sample: 24"),
        _ => panic!(),
    }
    assert_eq!(SttError::UnsupportedWavBits(8).message(), "unsupported int wav bits_per_sample: 8");
    assert_eq!(SttError::UnsupportedWavBits(65535).message(), "unsupported int wav bits_per_sample: 65535");
    assert_eq!(SttError::MissingArgument(ArgName::Data).message(), "missing args.data");
}

#[test]
fn resampling_sizes() {
    assert!(!needs_resample(16000));
    assert!(needs_resample(48000));
    assert_eq!(resample_padded_len(0), 0);
    assert_eq!(resample_padded_len(1), 1024);
    assert_eq!(resample_padded_len(1024), 1024);
    assert_eq!(resample_padded_len(1500), 2048);
}
