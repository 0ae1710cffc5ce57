use voxtype_elevenlabs_adapter::state::api_key_from_env;
use voxtype_elevenlabs_adapter::transcribe::{
    invalid_content_type_reply, rejection_message, speech_to_text_url, transcription_fields, Action, Event, Reply, ReplyBody,
    Transcription, UpstreamRequest,
};
use voxtype_elevenlabs_adapter::upload::{
    MultipartEvent, Upload, UploadCollector, UploadError, UploadStep,
};
use voxtype_elevenlabs_adapter::{AdapterState, ApiKeyError, EnvValue};

fn state(api_base: &str) -> AdapterState {
    AdapterState::new(
        "/tmp/keys/api-key".to_owned(),
        api_base.to_owned(),
        "scribe_v2".to_owned(),
        false,
    )
    .unwrap()
}

fn field(name: &str, file_name: Option<&str>, content_type: Option<&str>) -> MultipartEvent {
    MultipartEvent::Field {
        name: Some(name.to_owned()),
        file_name: file_name.map(str::to_owned),
        content_type: content_type.map(str::to_owned),
    }
}

fn feed(collector: UploadCollector, event: MultipartEvent) -> (UploadCollector, UploadStep) {
    assert!(collector.accepts(&event));
    collector.step(event)
}

/// A body as Voxtype sends it: a `file`, a `model` and a `language` field.
fn read_voxtype_upload(audio: &str) -> Result<Upload, UploadError> {
    let c = UploadCollector::new();
    let (c, s) = feed(c, field("file", Some("audio.wav"), Some("audio/wav")));
    assert!(matches!(s, UploadStep::ReadBytes));
    let (c, s) = feed(c, MultipartEvent::BytesRead(audio.as_bytes().to_vec()));
    assert!(matches!(s, UploadStep::NextField));
    let (c, s) = feed(c, field("model", None, None));
    assert!(matches!(s, UploadStep::NextField));
    let (c, s) = feed(c, field("language", None, None));
    assert!(matches!(s, UploadStep::ReadText));
    let (c, s) = feed(c, MultipartEvent::TextRead("en".to_owned()));
    assert!(matches!(s, UploadStep::NextField));
    let (_, s) = feed(c, MultipartEvent::NoMoreFields);
    match s {
        UploadStep::Done(result) => result,
        _ => panic!("upload not finished"),
    }
}

fn step(t: Transcription, state: &AdapterState, event: Event) -> (Transcription, Action) {
    assert!(t.accepts(&event));
    t.step(state, event)
}

fn error_of(action: Action) -> (u16, String) {
    match action {
        Action::Respond(Reply { status, body: ReplyBody::Error(text) }) => (status, text),
        _ => panic!("expected an error reply"),
    }
}

fn sent(action: Action) -> UpstreamRequest {
    match action {
        Action::Send(request) => request,
        _ => panic!("expected a request to ElevenLabs"),
    }
}

fn fields(request: &UpstreamRequest) -> Vec<(String, String)> {
    request.fields.iter().map(|f| (f.name.clone(), f.value.clone())).collect()
}

#[test]
fn translates_voxtype_request_to_elevenlabs() {
    let state = state("http://127.0.0.1:4321/");
    let upload = read_voxtype_upload("fake-wave-data").unwrap();
    let (t, first) = Transcription::start();
    assert!(matches!(first, Action::ReadUpload));
    let (t, a) = step(t, &state, Event::UploadRead(Ok(upload)));
    assert!(matches!(a, Action::LoadApiKey));
    let (t, a) = step(t, &state, Event::ApiKeyLoaded(Ok("test-key".to_owned())));
    let request = sent(a);
    assert_eq!(request.url, "http://127.0.0.1:4321/v1/speech-to-text");
    assert_eq!(request.api_key, "test-key");
    assert_eq!(request.audio, b"fake-wave-data");
    assert_eq!(request.filename, "audio.wav");
    assert_eq!(request.content_type, "audio/wav");
    let f = fields(&request);
    assert!(f.contains(&("model_id".to_owned(), "scribe_v2".to_owned())));
    assert!(f.contains(&("language_code".to_owned(), "en".to_owned())));
    let (t, a) = step(t, &state, Event::Responded(200));
    assert!(matches!(a, Action::ReadTranscript));
    let (_, a) = step(t, &state, Event::TranscriptRead(Some("Hello from ElevenLabs.".to_owned())));
    match a {
        Action::Respond(Reply { status, body: ReplyBody::Transcript(text) }) => {
            assert_eq!(status, 200);
            assert_eq!(text, "Hello from ElevenLabs.");
        }
        _ => panic!("expected a transcript"),
    }
}

#[test]
fn reports_missing_api_key_without_contacting_upstream() {
    let state = state("http://127.0.0.1:4321");
    assert!(api_key_from_env(&EnvValue::Unset).is_none());
    let key = state.api_key_from_file(None);
    let upload = read_voxtype_upload("fake-wave-data").unwrap();
    let (t, _) = Transcription::start();
    let (t, _) = step(t, &state, Event::UploadRead(Ok(upload)));
    let (t, a) = step(t, &state, Event::ApiKeyLoaded(key));
    let (status, text) = error_of(a);
    assert_eq!(status, 503);
    assert!(text.contains("set-key"));
    assert!(!t.accepts(&Event::Responded(200)));
    assert!(!t.accepts(&Event::SendFailed));
}

#[test]
fn missing_key_message_names_the_file() {
    let state = state("x");
    let error = state.api_key_from_file(None).unwrap_err();
    assert_eq!(
        error.message(),
        "ElevenLabs API key is not configured; run `voxtype-elevenlabs-adapter set-key` (expected /tmp/keys/api-key)"
    );
    let error = state.api_key_from_file(Some(" \n".to_owned())).unwrap_err();
    assert!(matches!(error, ApiKeyError::EmptyFile));
    assert_eq!(
        error.message(),
        "ElevenLabs API key file is empty; run `voxtype-elevenlabs-adapter set-key`"
    );
    assert_eq!(state.api_key_from_file(Some(" k-1\n".to_owned())).unwrap(), "k-1");
}

#[test]
fn environment_key_is_trimmed_and_blank_ignored() {
    assert_eq!(api_key_from_env(&EnvValue::Value("  abc \n".to_owned())).unwrap(), "abc");
    assert!(api_key_from_env(&EnvValue::Value("   ".to_owned())).is_none());
    assert!(api_key_from_env(&EnvValue::NotUnicode("x".to_owned())).is_none());
}

#[test]
fn upload_refusals() {
    let (c, _) = feed(UploadCollector::new(), field("model", None, None));
    let (_, s) = feed(c, MultipartEvent::NoMoreFields);
    assert!(matches!(s, UploadStep::Done(Err(UploadError::MissingFile))));

    let (c, _) = feed(UploadCollector::new(), field("file", None, None));
    let (c, _) = feed(c, MultipartEvent::BytesRead(Vec::new()));
    let (_, s) = feed(c, MultipartEvent::NoMoreFields);
    assert!(matches!(s, UploadStep::Done(Err(UploadError::EmptyAudio))));

    let (_, s) = feed(UploadCollector::new(), MultipartEvent::FieldFailed);
    assert!(matches!(s, UploadStep::Done(Err(UploadError::InvalidMultipart))));

    let (c, _) = feed(UploadCollector::new(), field("file", None, None));
    let (_, s) = feed(c, MultipartEvent::ContentFailed);
    assert!(matches!(s, UploadStep::Done(Err(UploadError::AudioUnreadable))));

    let (c, _) = feed(UploadCollector::new(), field("language", None, None));
    let (_, s) = feed(c, MultipartEvent::ContentFailed);
    assert!(matches!(s, UploadStep::Done(Err(UploadError::LanguageUnreadable))));

    assert_eq!(UploadError::MissingFile.message(), "multipart field `file` is required");
    assert_eq!(UploadError::EmptyAudio.message(), "uploaded audio is empty");
    assert_eq!(UploadError::InvalidMultipart.message(), "invalid multipart request");
    assert_eq!(UploadError::AudioUnreadable.message(), "could not read uploaded audio");
    assert_eq!(UploadError::LanguageUnreadable.message(), "could not read language field");
}

#[test]
fn last_file_and_language_fields_win_with_defaults() {
    let (c, _) = feed(UploadCollector::new(), field("file", Some("a.mp3"), Some("audio/mpeg")));
    let (c, _) = feed(c, MultipartEvent::BytesRead(vec![1, 2]));
    let (c, _) = feed(c, field("language", None, None));
    let (c, _) = feed(c, MultipartEvent::TextRead("de".to_owned()));
    let (c, _) = feed(c, MultipartEvent::Field { name: None, file_name: None, content_type: None });
    let (c, s) = feed(c, field("file", None, None));
    assert!(matches!(s, UploadStep::ReadBytes));
    let (c, _) = feed(c, MultipartEvent::BytesRead(vec![3]));
    let (c, _) = feed(c, field("language", None, None));
    let (c, _) = feed(c, MultipartEvent::TextRead("fr".to_owned()));
    let (_, s) = feed(c, MultipartEvent::NoMoreFields);
    match s {
        UploadStep::Done(Ok(u)) => {
            assert_eq!(u.bytes, vec![3]);
            assert_eq!(u.filename, "audio.wav");
            assert_eq!(u.content_type, "audio/wav");
            assert_eq!(u.language.as_deref(), Some("fr"));
        }
        _ => panic!("expected an upload"),
    }
}

#[test]
fn upload_error_is_a_bad_request() {
    let state = state("x");
    let (t, _) = Transcription::start();
    let (_, a) = step(t, &state, Event::UploadRead(Err(UploadError::EmptyAudio)));
    assert_eq!(error_of(a), (400, "uploaded audio is empty".to_owned()));
}

#[test]
fn invalid_content_type_is_a_bad_request() {
    let state = state("x");
    let upload = Upload {
        bytes: vec![1],
        filename: "a.wav".to_owned(),
        content_type: "not a mime type".to_owned(),
        language: None,
    };
    let (t, _) = Transcription::start();
    let (t, _) = step(t, &state, Event::UploadRead(Ok(upload)));
    let (_, a) = step(t, &state, Event::ApiKeyLoaded(Ok("k".to_owned())));
    assert_eq!(error_of(a), (400, "invalid audio content type: builder error".to_owned()));
}

#[test]
fn upstream_failures_are_bad_gateway() {
    let state = state("x");
    let upload = || Upload {
        bytes: vec![1],
        filename: "a.wav".to_owned(),
        content_type: "audio/wav".to_owned(),
        language: Some("auto".to_owned()),
    };
    let start = |u: Upload| {
        let (t, _) = Transcription::start();
        let (t, _) = step(t, &state, Event::UploadRead(Ok(u)));
        let (t, a) = step(t, &state, Event::ApiKeyLoaded(Ok("sk_secret".to_owned())));
        let request = sent(a);
        assert!(!fields(&request).iter().any(|(n, _)| n == "language_code"));
        t
    };

    let (_, a) = step(start(upload()), &state, Event::SendFailed);
    assert_eq!(
        error_of(a),
        (502, "could not reach ElevenLabs; check the adapter service log".to_owned())
    );

    let (t, a) = step(start(upload()), &state, Event::Responded(401));
    assert!(matches!(a, Action::ReadErrorBody));
    let (_, a) = step(
        t,
        &state,
        Event::ErrorBodyRead("{\"detail\":  \"invalid key sk_secret\"}".to_owned()),
    );
    assert_eq!(
        error_of(a),
        (
            502,
            "ElevenLabs returned 401 Unauthorized: {\"detail\": \"invalid key [redacted]\"}"
                .to_owned()
        )
    );

    let (t, _) = step(start(upload()), &state, Event::Responded(599));
    let (_, a) = step(t, &state, Event::ErrorBodyRead(String::new()));
    assert_eq!(
        error_of(a),
        (502, "ElevenLabs returned 599 <unknown status code>: no error detail".to_owned())
    );

    let (t, a) = step(start(upload()), &state, Event::Responded(204));
    assert!(matches!(a, Action::ReadTranscript));
    let (_, a) = step(t, &state, Event::TranscriptRead(None));
    assert_eq!(error_of(a), (502, "ElevenLabs returned an invalid response".to_owned()));
}

#[test]
fn form_fields_in_order() {
    let f = transcription_fields("scribe_v2", true, &Some("en".to_owned()));
    let pairs: Vec<(&str, &str)> = f.iter().map(|x| (x.name.as_str(), x.value.as_str())).collect();
    assert_eq!(
        pairs,
        vec![
            ("model_id", "scribe_v2"),
            ("tag_audio_events", "false"),
            ("diarize", "false"),
            ("timestamps_granularity", "none"),
            ("no_verbatim", "true"),
            ("language_code", "en"),
        ]
    );
    assert_eq!(transcription_fields("m", false, &Some("auto".to_owned())).len(), 5);
    assert_eq!(transcription_fields("m", false, &None).len(), 5);
}

#[test]
fn endpoint_and_rejection_texts() {
    assert_eq!(speech_to_text_url("https://api.elevenlabs.io"), "https://api.elevenlabs.io/v1/speech-to-text");
    assert_eq!(rejection_message("400 Bad Request", " a \n b ", "k"), "ElevenLabs returned 400 Bad Request: a b");
}

#[test]
fn health_report() {
    let state = state("x");
    let report = state.health(true);
    assert_eq!(report.status, "ok");
    assert!(report.configured);
    assert_eq!(report.model, "scribe_v2");
}

#[test]
fn content_type_reply_names_the_reason() {
    let (status, text) = error_of(Action::Respond(invalid_content_type_reply("bad")));
    assert_eq!(status, 400);
    assert_eq!(text, "invalid audio content type: bad");
}
