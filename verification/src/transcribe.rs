use vstd::prelude::*;

use crate::state::{api_key_problem_text, AdapterState, ApiKeyError, ApiKeyProblem, StateView};
use crate::text::{sanitize_error, sanitized};
use crate::keyfile::decimal;
use crate::upload::{upload_error_text, Upload, UploadError, UploadView};

verus! {

/// The text `http::StatusCode` displays for a status code (its number and
/// reason phrase).
pub uninterp spec fn status_line(code: u16) -> Seq<char>;

/// Displays a status code: calls `http::StatusCode::from_u16` (through
/// `axum::http`) and the `Display` of the result, which writes the code's
/// decimal number, a space, and the reason phrase. The contract claims that
/// the text is `status_line(code)`, a function of the code, and that it
/// starts with the code's decimal number and a space; the reason phrase is
/// left to the name. It asks for a code from 100 to 999, the ones
/// `from_u16` accepts.
#[verifier::external_body]
fn status_text(code: u16) -> (text: String)
    requires
        100 <= code <= 999,
    ensures
        text@ == status_line(code),
        decimal(code as nat).push(' ').is_prefix_of(text@),
{
    match axum::http::StatusCode::from_u16(code) {
        Ok(status) => status.to_string(),
        Err(error) => error.to_string(),
    }
}

/// Whether `reqwest::multipart::Part::mime_str` accepts a content type: it
/// parses it as a `mime::Mime`.
pub uninterp spec fn mime_accepted(content_type: Seq<char>) -> bool;

/// Checks a content type as the audio part will: calls
/// `reqwest::multipart::Part::mime_str` on a part with the content type.
/// The contract claims that the outcome is `mime_accepted(content_type)`,
/// a function of the content type alone (the source parses it as a
/// `mime::Mime`), and that a refusal's text is `builder error` (the source
/// makes a builder error with no URL, which displays so).
#[verifier::external_body]
fn check_part_mime(content_type: &str) -> (r: Result<(), String>)
    ensures
        r is Ok <==> mime_accepted(content_type@),
        r matches Err(text) ==> text@ == "builder error"@,
{
    match reqwest::multipart::Part::text("").mime_str(content_type) {
        Ok(_) => Ok(()),
        Err(error) => Err(error.to_string()),
    }
}

/// A text field of the form sent to ElevenLabs.
pub struct FormField {
    pub name: String,
    pub value: String,
}

/// The `model_id`, `tag_audio_events`, `diarize`, `timestamps_granularity`
/// and `no_verbatim` fields, and `language_code` when a language other than
/// `auto` was given.
pub open spec fn form_fields(model: Seq<char>, no_verbatim: bool, language: Option<Seq<char>>) -> Seq<
    (Seq<char>, Seq<char>),
> {
    let fields = seq![
        ("model_id"@, model),
        ("tag_audio_events"@, "false"@),
        ("diarize"@, "false"@),
        ("timestamps_granularity"@, "none"@),
        ("no_verbatim"@, if no_verbatim {
            "true"@
        } else {
            "false"@
        }),
    ];
    match language {
        Some(l) => if l != "auto"@ {
            fields.push(("language_code"@, l))
        } else {
            fields
        },
        None => fields,
    }
}

/// The fields as name and value pairs.
pub open spec fn field_pairs(fields: Seq<FormField>) -> Seq<(Seq<char>, Seq<char>)> {
    fields.map_values(|f: FormField| (f.name@, f.value@))
}

/// The text fields of the form sent to ElevenLabs.
pub fn transcription_fields(model: &str, no_verbatim: bool, language: &Option<String>) -> (fields:
    Vec<FormField>)
    ensures
        field_pairs(fields@) == form_fields(model@, no_verbatim, language.deep_view()),
{
    let mut fields: Vec<FormField> = Vec::new();
    fields.push(FormField { name: String::from_str("model_id"), value: String::from_str(model) });
    fields.push(
        FormField { name: String::from_str("tag_audio_events"), value: String::from_str("false") },
    );
    fields.push(FormField { name: String::from_str("diarize"), value: String::from_str("false") });
    fields.push(
        FormField {
            name: String::from_str("timestamps_granularity"),
            value: String::from_str("none"),
        },
    );
    let flag = if no_verbatim {
        String::from_str("true")
    } else {
        String::from_str("false")
    };
    fields.push(FormField { name: String::from_str("no_verbatim"), value: flag });
    let ghost base = field_pairs(fields@);
    assert(base =~= form_fields(model@, no_verbatim, None));
    if let Some(l) = language {
        let auto = String::from_str("auto");
        if *l != auto {
            fields.push(FormField { name: String::from_str("language_code"), value: l.clone() });
            assert(field_pairs(fields@) =~= base.push(("language_code"@, l@)));
        }
    }
    fields
}

/// The ElevenLabs speech-to-text endpoint under `api_base`.
pub open spec fn speech_to_text_endpoint(api_base: Seq<char>) -> Seq<char> {
    api_base + "/v1/speech-to-text"@
}

/// The ElevenLabs speech-to-text endpoint under `api_base`.
pub fn speech_to_text_url(api_base: &str) -> (url: String)
    ensures
        url@ == speech_to_text_endpoint(api_base@),
{
    let mut url = String::from_str(api_base);
    url.append("/v1/speech-to-text");
    url
}

/// The text of the reply when ElevenLabs refuses the transcription.
pub open spec fn rejection_text(status: Seq<char>, body: Seq<char>, api_key: Seq<char>) -> Seq<char> {
    "ElevenLabs returned "@ + status + ": "@ + sanitized(body, api_key)
}

/// The text of the reply when ElevenLabs refuses the transcription with
/// the status `status` (as displayed) and the error body `body`.
pub fn rejection_message(status: &str, body: &str, api_key: &str) -> (text: String)
    ensures
        text@ == rejection_text(status@, body@, api_key@),
{
    let detail = sanitize_error(body, api_key);
    let mut text = String::from_str("ElevenLabs returned ");
    text.append(status);
    text.append(": ");
    text.append(detail.as_str());
    text
}

/// The text of the reply when the upload's content type is refused, with
/// the reason `reqwest` gives.
pub open spec fn invalid_content_type_text(reason: Seq<char>) -> Seq<char> {
    "invalid audio content type: "@ + reason
}

/// The body of a reply to Voxtype.
pub enum ReplyBody {
    /// `{"text": ...}`
    Transcript(String),
    /// `{"error": ...}`
    Error(String),
}

/// A reply to Voxtype: an HTTP status and a JSON body.
pub struct Reply {
    pub status: u16,
    pub body: ReplyBody,
}

/// The model of a [`ReplyBody`].
pub enum ReplyBodyView {
    Transcript(Seq<char>),
    Error(Seq<char>),
}

/// The model of a [`Reply`].
pub struct ReplyView {
    pub status: u16,
    pub body: ReplyBodyView,
}

impl View for Reply {
    type V = ReplyView;

    open spec fn view(&self) -> ReplyView {
        ReplyView {
            status: self.status,
            body: match &self.body {
                ReplyBody::Transcript(t) => ReplyBodyView::Transcript(t@),
                ReplyBody::Error(e) => ReplyBodyView::Error(e@),
            },
        }
    }
}

/// An error reply.
pub open spec fn error_reply(status: u16, text: Seq<char>) -> ReplyView {
    ReplyView { status, body: ReplyBodyView::Error(text) }
}

/// The transcription request to send to ElevenLabs: a multipart form with
/// the audio as its `file` part, and the API key in the `xi-api-key`
/// header.
pub struct UpstreamRequest {
    pub url: String,
    pub api_key: String,
    pub audio: Vec<u8>,
    pub filename: String,
    pub content_type: String,
    pub fields: Vec<FormField>,
}

/// The model of an [`UpstreamRequest`].
pub struct UpstreamRequestView {
    pub url: Seq<char>,
    pub api_key: Seq<char>,
    pub audio: Seq<u8>,
    pub filename: Seq<char>,
    pub content_type: Seq<char>,
    pub fields: Seq<(Seq<char>, Seq<char>)>,
}

impl View for UpstreamRequest {
    type V = UpstreamRequestView;

    open spec fn view(&self) -> UpstreamRequestView {
        UpstreamRequestView {
            url: self.url@,
            api_key: self.api_key@,
            audio: self.audio@,
            filename: self.filename@,
            content_type: self.content_type@,
            fields: field_pairs(self.fields@),
        }
    }
}

/// The request that carries upload `u` to ElevenLabs with key `api_key`.
pub open spec fn upstream_request(s: StateView, u: UploadView, api_key: Seq<char>) -> UpstreamRequestView {
    UpstreamRequestView {
        url: speech_to_text_endpoint(s.api_base),
        api_key,
        audio: u.bytes,
        filename: u.filename,
        content_type: u.content_type,
        fields: form_fields(s.model, s.no_verbatim, u.language),
    }
}

/// What the driver of a transcription is to do next.
pub enum Action {
    /// Read the audio upload from the request.
    ReadUpload,
    /// Load the API key.
    LoadApiKey,
    /// Send this request to ElevenLabs.
    Send(UpstreamRequest),
    /// Read the body of ElevenLabs' error response as text.
    ReadErrorBody,
    /// Read ElevenLabs' response as JSON with a `text` field.
    ReadTranscript,
    /// Answer Voxtype with this reply; the transcription is over.
    Respond(Reply),
}

/// The model of an [`Action`].
pub enum ActionView {
    ReadUpload,
    LoadApiKey,
    Send(UpstreamRequestView),
    ReadErrorBody,
    ReadTranscript,
    Respond(ReplyView),
}

impl View for Action {
    type V = ActionView;

    open spec fn view(&self) -> ActionView {
        match self {
            Action::ReadUpload => ActionView::ReadUpload,
            Action::LoadApiKey => ActionView::LoadApiKey,
            Action::Send(r) => ActionView::Send(r@),
            Action::ReadErrorBody => ActionView::ReadErrorBody,
            Action::ReadTranscript => ActionView::ReadTranscript,
            Action::Respond(r) => ActionView::Respond(r@),
        }
    }
}

/// What the driver reports back.
pub enum Event {
    /// The upload was read, or refused.
    UploadRead(Result<Upload, UploadError>),
    /// The API key was loaded, or could not be.
    ApiKeyLoaded(Result<String, ApiKeyError>),
    /// The request could not be sent, or no response came.
    SendFailed,
    /// ElevenLabs responded with this status code.
    Responded(u16),
    /// The error body as text (empty when it could not be read).
    ErrorBodyRead(String),
    /// The `text` field of ElevenLabs' JSON response, if it is valid.
    TranscriptRead(Option<String>),
}

/// The model of an [`Event`].
pub enum EventView {
    UploadRead(Result<UploadView, UploadError>),
    ApiKeyLoaded(Result<Seq<char>, ApiKeyProblem>),
    SendFailed,
    Responded(u16),
    ErrorBodyRead(Seq<char>),
    TranscriptRead(Option<Seq<char>>),
}

impl View for Event {
    type V = EventView;

    open spec fn view(&self) -> EventView {
        match self {
            Event::UploadRead(Ok(u)) => EventView::UploadRead(Ok(u@)),
            Event::UploadRead(Err(e)) => EventView::UploadRead(Err(*e)),
            Event::ApiKeyLoaded(Ok(k)) => EventView::ApiKeyLoaded(Ok(k@)),
            Event::ApiKeyLoaded(Err(e)) => EventView::ApiKeyLoaded(Err(e@)),
            Event::SendFailed => EventView::SendFailed,
            Event::Responded(code) => EventView::Responded(*code),
            Event::ErrorBodyRead(b) => EventView::ErrorBodyRead(b@),
            Event::TranscriptRead(t) => EventView::TranscriptRead(t.deep_view()),
        }
    }
}

/// Where a transcription stands.
pub enum Phase {
    AwaitUpload,
    AwaitApiKey(Upload),
    AwaitResponse { api_key: String },
    AwaitErrorBody { status: u16, api_key: String },
    AwaitTranscript,
    Finished,
}

/// The model of a [`Phase`].
pub enum PhaseView {
    AwaitUpload,
    AwaitApiKey(UploadView),
    AwaitResponse { api_key: Seq<char> },
    AwaitErrorBody { status: u16, api_key: Seq<char> },
    AwaitTranscript,
    Finished,
}

impl View for Phase {
    type V = PhaseView;

    open spec fn view(&self) -> PhaseView {
        match self {
            Phase::AwaitUpload => PhaseView::AwaitUpload,
            Phase::AwaitApiKey(u) => PhaseView::AwaitApiKey(u@),
            Phase::AwaitResponse { api_key } => PhaseView::AwaitResponse { api_key: api_key@ },
            Phase::AwaitErrorBody { status, api_key } => PhaseView::AwaitErrorBody {
                status: *status,
                api_key: api_key@,
            },
            Phase::AwaitTranscript => PhaseView::AwaitTranscript,
            Phase::Finished => PhaseView::Finished,
        }
    }
}

/// Whether a transcription in phase `p` can take event `e`: the event
/// answers the phase's action, and a status code is one `http` can hold.
pub open spec fn transcription_accepts(p: PhaseView, e: EventView) -> bool {
    match p {
        PhaseView::AwaitUpload => e is UploadRead,
        PhaseView::AwaitApiKey(_) => e is ApiKeyLoaded,
        PhaseView::AwaitResponse { .. } => e is SendFailed || (e matches EventView::Responded(code)
            && 100 <= code <= 999),
        PhaseView::AwaitErrorBody { .. } => e is ErrorBodyRead,
        PhaseView::AwaitTranscript => e is TranscriptRead,
        PhaseView::Finished => false,
    }
}

/// Whether an upstream status code means success.
pub open spec fn is_success_status(code: u16) -> bool {
    200 <= code < 300
}

/// One step of a transcription with adapter settings `s`: its next phase
/// and what the driver is to do. (A step is taken only on an event the
/// phase takes; the last arm merely makes this definition total.)
pub open spec fn transcription_step(s: StateView, p: PhaseView, e: EventView) -> (PhaseView, ActionView) {
    let finish = |reply: ReplyView| (PhaseView::Finished, ActionView::Respond(reply));
    match (p, e) {
        (PhaseView::AwaitUpload, EventView::UploadRead(Err(problem))) => finish(
            error_reply(400, upload_error_text(problem)),
        ),
        (PhaseView::AwaitUpload, EventView::UploadRead(Ok(u))) => (
            PhaseView::AwaitApiKey(u),
            ActionView::LoadApiKey,
        ),
        (PhaseView::AwaitApiKey(_), EventView::ApiKeyLoaded(Err(problem))) => finish(
            error_reply(503, api_key_problem_text(problem)),
        ),
        (PhaseView::AwaitApiKey(u), EventView::ApiKeyLoaded(Ok(key))) => if mime_accepted(
            u.content_type,
        ) {
            (PhaseView::AwaitResponse { api_key: key }, ActionView::Send(upstream_request(s, u, key)))
        } else {
            finish(error_reply(400, invalid_content_type_text("builder error"@)))
        },
        (PhaseView::AwaitResponse { .. }, EventView::SendFailed) => finish(
            error_reply(502, "could not reach ElevenLabs; check the adapter service log"@),
        ),
        (PhaseView::AwaitResponse { api_key }, EventView::Responded(code)) => if is_success_status(
            code,
        ) {
            (PhaseView::AwaitTranscript, ActionView::ReadTranscript)
        } else {
            (PhaseView::AwaitErrorBody { status: code, api_key }, ActionView::ReadErrorBody)
        },
        (PhaseView::AwaitErrorBody { status, api_key }, EventView::ErrorBodyRead(body)) => finish(
            error_reply(502, rejection_text(status_line(status), body, api_key)),
        ),
        (PhaseView::AwaitTranscript, EventView::TranscriptRead(Some(text))) => finish(
            ReplyView { status: 200, body: ReplyBodyView::Transcript(text) },
        ),
        (PhaseView::AwaitTranscript, EventView::TranscriptRead(None)) => finish(
            error_reply(502, "ElevenLabs returned an invalid response"@),
        ),
        _ => (PhaseView::Finished, ActionView::ReadUpload),
    }
}

/// One transcription request from Voxtype, carried to ElevenLabs and back.
pub struct Transcription {
    phase: Phase,
}

impl Transcription {
    /// An error body is awaited only for a status code that `http` can hold.
    #[verifier::type_invariant]
    spec fn well_formed(self) -> bool {
        self.phase matches Phase::AwaitErrorBody { status, .. } ==> 100 <= status <= 999
    }
}

impl View for Transcription {
    type V = PhaseView;

    closed spec fn view(&self) -> PhaseView {
        self.phase@
    }
}

/// An error reply with the text `text`.
fn error(status: u16, text: String) -> (reply: Reply)
    ensures
        reply@ == error_reply(status, text@),
{
    Reply { status, body: ReplyBody::Error(text) }
}

/// The reply when the upload's content type is refused for `reason`.
pub fn invalid_content_type_reply(reason: &str) -> (reply: Reply)
    ensures
        reply@ == error_reply(400, invalid_content_type_text(reason@)),
{
    let mut text = String::from_str("invalid audio content type: ");
    text.append(reason);
    error(400, text)
}

impl Transcription {
    /// A transcription that is to start by reading the upload.
    pub fn start() -> (r: (Self, Action))
        ensures
            r.0@ == PhaseView::AwaitUpload,
            r.1@ == ActionView::ReadUpload,
    {
        (Transcription { phase: Phase::AwaitUpload }, Action::ReadUpload)
    }

    /// Whether the transcription can take `event` now.
    pub fn accepts(&self, event: &Event) -> (b: bool)
        ensures
            b == transcription_accepts(self@, event@),
    {
        match (&self.phase, event) {
            (Phase::AwaitUpload, Event::UploadRead(_)) => true,
            (Phase::AwaitApiKey(_), Event::ApiKeyLoaded(_)) => true,
            (Phase::AwaitResponse { .. }, Event::SendFailed) => true,
            (Phase::AwaitResponse { .. }, Event::Responded(code)) => 100 <= *code && *code <= 999,
            (Phase::AwaitErrorBody { .. }, Event::ErrorBodyRead(_)) => true,
            (Phase::AwaitTranscript, Event::TranscriptRead(_)) => true,
            _ => false,
        }
    }

    /// Takes the driver's report and says what it is to do next.
    pub fn step(self, state: &AdapterState, event: Event) -> (r: (Self, Action))
        requires
            transcription_accepts(self@, event@),
        ensures
            (r.0@, r.1@) == transcription_step(state@, self@, event@),
            self@ matches PhaseView::AwaitErrorBody { status, .. } ==> (r.1@ matches ActionView::Respond(
                reply,
            ) && reply.body matches ReplyBodyView::Error(text) && ("ElevenLabs returned "@ + decimal(
                status as nat,
            ).push(' ')).is_prefix_of(text)),
    {
        proof {
            use_type_invariant(&self);
        }
        let finished = Transcription { phase: Phase::Finished };
        match (self.phase, event) {
            (Phase::AwaitUpload, Event::UploadRead(Err(problem))) => {
                (finished, Action::Respond(error(400, problem.message())))
            },
            (Phase::AwaitUpload, Event::UploadRead(Ok(upload))) => {
                (Transcription { phase: Phase::AwaitApiKey(upload) }, Action::LoadApiKey)
            },
            (Phase::AwaitApiKey(_), Event::ApiKeyLoaded(Err(problem))) => {
                (finished, Action::Respond(error(503, problem.message())))
            },
            (Phase::AwaitApiKey(upload), Event::ApiKeyLoaded(Ok(api_key))) => {
                match check_part_mime(upload.content_type.as_str()) {
                    Err(reason) => (finished, Action::Respond(invalid_content_type_reply(&reason))),
                    Ok(()) => {
                        let fields = transcription_fields(
                            state.model(),
                            state.no_verbatim(),
                            &upload.language,
                        );
                        let request = UpstreamRequest {
                            url: speech_to_text_url(state.api_base()),
                            api_key: api_key.clone(),
                            audio: upload.bytes,
                            filename: upload.filename,
                            content_type: upload.content_type,
                            fields,
                        };
                        (Transcription { phase: Phase::AwaitResponse { api_key } }, Action::Send(request))
                    },
                }
            },
            (Phase::AwaitResponse { .. }, Event::SendFailed) => {
                let text = String::from_str("could not reach ElevenLabs; check the adapter service log");
                (finished, Action::Respond(error(502, text)))
            },
            (Phase::AwaitResponse { api_key }, Event::Responded(code)) => {
                if 200 <= code && code < 300 {
                    (Transcription { phase: Phase::AwaitTranscript }, Action::ReadTranscript)
                } else {
                    (
                        Transcription { phase: Phase::AwaitErrorBody { status: code, api_key } },
                        Action::ReadErrorBody,
                    )
                }
            },
            (Phase::AwaitErrorBody { status, api_key }, Event::ErrorBodyRead(body)) => {
                let shown = status_text(status);
                let text = rejection_message(shown.as_str(), body.as_str(), api_key.as_str());
                proof {
                    let head = "ElevenLabs returned "@;
                    let prefix = decimal(status as nat).push(' ');
                    assert forall|i: int| 0 <= i < (head + prefix).len() implies (head + prefix)[i] == text@[i] by {
                        if i >= head.len() {
                            assert(prefix[i - head.len()] == shown@[i - head.len()]);
                        }
                    }
                }
                (finished, Action::Respond(error(502, text)))
            },
            (Phase::AwaitTranscript, Event::TranscriptRead(Some(text))) => {
                (finished, Action::Respond(Reply { status: 200, body: ReplyBody::Transcript(text) }))
            },
            (Phase::AwaitTranscript, Event::TranscriptRead(None)) => {
                let text = String::from_str("ElevenLabs returned an invalid response");
                (finished, Action::Respond(error(502, text)))
            },
            _ => (finished, Action::ReadUpload),
        }
    }
}


/// The phases and actions of a transcription with settings `s` that starts
/// in phase `p` and takes `events` in turn.
pub open spec fn transcription_run(s: StateView, p: PhaseView, events: Seq<EventView>) -> (
    PhaseView,
    Seq<ActionView>,
)
    decreases events.len(),
{
    if events.len() == 0 {
        (p, Seq::empty())
    } else {
        let (next, action) = transcription_step(s, p, events[0]);
        let (last, actions) = transcription_run(s, next, events.drop_first());
        (last, seq![action] + actions)
    }
}

/// Whether each of `events` is one the transcription can take when it
/// comes.
pub open spec fn run_accepted(s: StateView, p: PhaseView, events: Seq<EventView>) -> bool
    decreases events.len(),
{
    events.len() == 0 || (transcription_accepts(p, events[0]) && run_accepted(
        s,
        transcription_step(s, p, events[0]).0,
        events.drop_first(),
    ))
}

proof fn lemma_run_length(s: StateView, p: PhaseView, events: Seq<EventView>)
    ensures
        transcription_run(s, p, events).1.len() == events.len(),
    decreases events.len(),
{
    if events.len() > 0 {
        lemma_run_length(s, transcription_step(s, p, events[0]).0, events.drop_first());
    }
}

/// Whether `action` sends the upload that event `read` gave with the key
/// that event `loaded` gave.
pub open spec fn sends_upload_with_key(s: StateView, read: EventView, loaded: EventView, action: ActionView) -> bool {
    match (read, loaded) {
        (EventView::UploadRead(Ok(u)), EventView::ApiKeyLoaded(Ok(k))) => action == ActionView::Send(
            upstream_request(s, u, k),
        ),
        _ => false,
    }
}

/// Whether `action` sends the upload that phase `p` holds with the key that
/// event `loaded` gave.
spec fn sends_held_upload(s: StateView, p: PhaseView, loaded: EventView, action: ActionView) -> bool {
    match (p, loaded) {
        (PhaseView::AwaitApiKey(u), EventView::ApiKeyLoaded(Ok(k))) => action == ActionView::Send(
            upstream_request(s, u, k),
        ),
        _ => false,
    }
}

proof fn lemma_send_follows_upload_and_key(s: StateView, p: PhaseView, events: Seq<EventView>, i: int)
    requires
        run_accepted(s, p, events),
        0 <= i < events.len(),
        transcription_run(s, p, events).1[i] is Send,
    ensures
        (i >= 1 && sends_upload_with_key(s, events[i - 1], events[i], transcription_run(s, p, events).1[i]))
            || (i == 0 && sends_held_upload(s, p, events[0], transcription_run(s, p, events).1[0])),
    decreases events.len(),
{
    let (next, action) = transcription_step(s, p, events[0]);
    let tail = events.drop_first();
    let actions = transcription_run(s, p, events).1;
    let rest = transcription_run(s, next, tail).1;
    lemma_run_length(s, next, tail);
    assert(actions == seq![action] + rest);
    if i > 0 {
        assert(actions[i] == rest[i - 1]);
        lemma_send_follows_upload_and_key(s, next, tail, i - 1);
        assert(tail[i - 1] == events[i]);
        if i >= 2 {
            assert(tail[i - 2] == events[i - 1]);
        }
    }
}

/// A transcription contacts ElevenLabs only after it has read a valid
/// upload and, right after it, loaded the API key; what it sends is that
/// upload with that key. In particular a transcription whose key cannot be
/// loaded never contacts ElevenLabs.
pub proof fn law_upstream_only_after_upload_and_key(s: StateView, events: Seq<EventView>, i: int)
    requires
        run_accepted(s, PhaseView::AwaitUpload, events),
        0 <= i < events.len(),
        transcription_run(s, PhaseView::AwaitUpload, events).1[i] is Send,
    ensures
        i >= 1,
        sends_upload_with_key(s, events[i - 1], events[i], transcription_run(s, PhaseView::AwaitUpload, events).1[i]),
{
    lemma_send_follows_upload_and_key(s, PhaseView::AwaitUpload, events, i);
}

/// A transcription answers Voxtype at most once, and the answer ends it:
/// after a reply it takes no further event.
pub proof fn law_single_final_reply(s: StateView, p: PhaseView, events: Seq<EventView>, i: int)
    requires
        run_accepted(s, p, events),
        0 <= i < events.len(),
        transcription_run(s, p, events).1[i] is Respond,
    ensures
        i == events.len() - 1,
    decreases events.len(),
{
    let (next, action) = transcription_step(s, p, events[0]);
    let tail = events.drop_first();
    let actions = transcription_run(s, p, events).1;
    let rest = transcription_run(s, next, tail).1;
    lemma_run_length(s, next, tail);
    assert(actions == seq![action] + rest);
    if i > 0 {
        assert(actions[i] == rest[i - 1]);
        law_single_final_reply(s, next, tail, i - 1);
    } else if tail.len() > 0 {
        assert(next == PhaseView::Finished);
    }
}

/// A transcription whose API key cannot be loaded is answered with status
/// 503 and the reason, which tells how to configure the key.
pub proof fn law_missing_key_is_unavailable(s: StateView, u: UploadView, problem: ApiKeyProblem)
    ensures
        transcription_step(s, PhaseView::AwaitApiKey(u), EventView::ApiKeyLoaded(Err(problem)))
            == (PhaseView::Finished, ActionView::Respond(error_reply(503, api_key_problem_text(problem)))),
        crate::text::occurs_in(api_key_problem_text(problem), "set-key"@),
{
    reveal_strlit("set-key");
    reveal_strlit("ElevenLabs API key is not configured; run `voxtype-elevenlabs-adapter set-key` (expected ");
    reveal_strlit(")");
    reveal_strlit("ElevenLabs API key file is empty; run `voxtype-elevenlabs-adapter set-key`");
    let text = api_key_problem_text(problem);
    let at: int = if problem is NotConfigured {
        70
    } else {
        66
    };
    assert(text.subrange(at, at + 7) =~= "set-key"@);
}

/// The form asks ElevenLabs for the given model first, then turns off audio
/// event tags, diarization and timestamps, then passes the `no_verbatim`
/// flag as `true` or `false`; a language other than `auto` is passed last
/// as `language_code`, and no other field is sent.
pub proof fn law_form_fields_carry_settings(model: Seq<char>, no_verbatim: bool, language: Option<Seq<char>>)
    ensures
        form_fields(model, no_verbatim, language)[0] == ("model_id"@, model),
        form_fields(model, no_verbatim, language)[1] == ("tag_audio_events"@, "false"@),
        form_fields(model, no_verbatim, language)[2] == ("diarize"@, "false"@),
        form_fields(model, no_verbatim, language)[3] == ("timestamps_granularity"@, "none"@),
        no_verbatim ==> form_fields(model, no_verbatim, language)[4] == ("no_verbatim"@, "true"@),
        !no_verbatim ==> form_fields(model, no_verbatim, language)[4] == ("no_verbatim"@, "false"@),
        form_fields(model, no_verbatim, language).len() == 5 || form_fields(model, no_verbatim, language).len() == 6,
        (form_fields(model, no_verbatim, language).len() == 6) == (language is Some && language->0 != "auto"@),
        form_fields(model, no_verbatim, language).len() == 6 ==> form_fields(model, no_verbatim, language)[5] == (
            "language_code"@,
            language->0,
        ),
{
}

/// The request a transcription holding upload `u` sends once key `key` is
/// loaded (meaningful when it sends one).
pub open spec fn request_sent(s: StateView, u: UploadView, key: Seq<char>) -> UpstreamRequestView {
    transcription_step(s, PhaseView::AwaitApiKey(u), EventView::ApiKeyLoaded(Ok(key))).1->Send_0
}

/// With a valid upload and a loaded key, the transcription sends ElevenLabs
/// exactly that upload with that key, to the speech-to-text endpoint under
/// the adapter's API base, asking for the adapter's model with the
/// adapter's `no_verbatim` setting and the upload's language (unless
/// `auto`).
pub proof fn law_request_carries_upload_key_and_settings(s: StateView, u: UploadView, key: Seq<char>)
    requires
        mime_accepted(u.content_type),
    ensures
        transcription_step(s, PhaseView::AwaitApiKey(u), EventView::ApiKeyLoaded(Ok(key))).0
            == (PhaseView::AwaitResponse { api_key: key }),
        (transcription_step(s, PhaseView::AwaitApiKey(u), EventView::ApiKeyLoaded(Ok(key))).1 is Send),
        request_sent(s, u, key).url == s.api_base + "/v1/speech-to-text"@,
        request_sent(s, u, key).api_key == key,
        request_sent(s, u, key).audio == u.bytes,
        request_sent(s, u, key).filename == u.filename,
        request_sent(s, u, key).content_type == u.content_type,
        request_sent(s, u, key).fields[0] == ("model_id"@, s.model),
        s.no_verbatim ==> request_sent(s, u, key).fields[4] == ("no_verbatim"@, "true"@),
        !s.no_verbatim ==> request_sent(s, u, key).fields[4] == ("no_verbatim"@, "false"@),
        (request_sent(s, u, key).fields.len() == 6) == (u.language is Some && u.language->0 != "auto"@),
        request_sent(s, u, key).fields.len() == 6 ==> request_sent(s, u, key).fields[5] == (
            "language_code"@,
            u.language->0,
        ),
{
    law_form_fields_carry_settings(s.model, s.no_verbatim, u.language);
}

/// Whatever text ElevenLabs returns in a valid response, empty text
/// included, is relayed to Voxtype with status 200; a 502 after a success
/// status comes only when the response is not valid.
pub proof fn law_transcript_is_relayed(s: StateView, text: Option<Seq<char>>)
    ensures
        (text matches Some(t) ==> transcription_step(s, PhaseView::AwaitTranscript, EventView::TranscriptRead(text))
            == (PhaseView::Finished, ActionView::Respond(ReplyView { status: 200, body: ReplyBodyView::Transcript(t) }))),
        (text is None) ==> transcription_step(s, PhaseView::AwaitTranscript, EventView::TranscriptRead(text))
            == (PhaseView::Finished, ActionView::Respond(
                (ReplyView { status: 502, body: ReplyBodyView::Error("ElevenLabs returned an invalid response"@) }),
            )),
{
}

} // verus!
