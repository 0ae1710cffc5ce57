use vstd::prelude::*;

use crate::text::{chars_of, same_chars};

verus! {

/// The audio upload of a transcription request.
pub struct Upload {
    pub bytes: Vec<u8>,
    pub filename: String,
    pub content_type: String,
    pub language: Option<String>,
}

/// The model of an [`Upload`].
pub struct UploadView {
    pub bytes: Seq<u8>,
    pub filename: Seq<char>,
    pub content_type: Seq<char>,
    pub language: Option<Seq<char>>,
}

impl View for Upload {
    type V = UploadView;

    open spec fn view(&self) -> UploadView {
        UploadView {
            bytes: self.bytes@,
            filename: self.filename@,
            content_type: self.content_type@,
            language: self.language.deep_view(),
        }
    }
}

/// Why an upload was refused.
#[derive(Debug, Clone, Copy, PartialEq, Eq, Structural)]
pub enum UploadError {
    /// The multipart body could not be read.
    InvalidMultipart,
    /// The `file` field could not be read.
    AudioUnreadable,
    /// The `language` field could not be read.
    LanguageUnreadable,
    /// There is no `file` field.
    MissingFile,
    /// The `file` field is empty.
    EmptyAudio,
}

/// The text shown for a refused upload.
pub open spec fn upload_error_text(e: UploadError) -> Seq<char> {
    match e {
        UploadError::InvalidMultipart => "invalid multipart request"@,
        UploadError::AudioUnreadable => "could not read uploaded audio"@,
        UploadError::LanguageUnreadable => "could not read language field"@,
        UploadError::MissingFile => "multipart field `file` is required"@,
        UploadError::EmptyAudio => "uploaded audio is empty"@,
    }
}

impl UploadError {
    /// The text shown for this error.
    pub fn message(&self) -> (text: String)
        ensures
            text@ == upload_error_text(*self),
    {
        match self {
            UploadError::InvalidMultipart => String::from_str("invalid multipart request"),
            UploadError::AudioUnreadable => String::from_str("could not read uploaded audio"),
            UploadError::LanguageUnreadable => String::from_str("could not read language field"),
            UploadError::MissingFile => String::from_str("multipart field `file` is required"),
            UploadError::EmptyAudio => String::from_str("uploaded audio is empty"),
        }
    }
}

/// What the reader of the multipart body reports.
pub enum MultipartEvent {
    /// The next field begins, with its name, file name and content type as
    /// far as the request gives them.
    Field { name: Option<String>, file_name: Option<String>, content_type: Option<String> },
    /// There are no more fields.
    NoMoreFields,
    /// The next field could not be read.
    FieldFailed,
    /// The field's content, read as bytes.
    BytesRead(Vec<u8>),
    /// The field's content, read as text.
    TextRead(String),
    /// The field's content could not be read.
    ContentFailed,
}

/// The model of a [`MultipartEvent`].
pub enum MultipartEventView {
    Field { name: Option<Seq<char>>, file_name: Option<Seq<char>>, content_type: Option<Seq<char>> },
    NoMoreFields,
    FieldFailed,
    BytesRead(Seq<u8>),
    TextRead(Seq<char>),
    ContentFailed,
}

impl View for MultipartEvent {
    type V = MultipartEventView;

    open spec fn view(&self) -> MultipartEventView {
        match self {
            MultipartEvent::Field { name, file_name, content_type } => MultipartEventView::Field {
                name: name.deep_view(),
                file_name: file_name.deep_view(),
                content_type: content_type.deep_view(),
            },
            MultipartEvent::NoMoreFields => MultipartEventView::NoMoreFields,
            MultipartEvent::FieldFailed => MultipartEventView::FieldFailed,
            MultipartEvent::BytesRead(b) => MultipartEventView::BytesRead(b@),
            MultipartEvent::TextRead(t) => MultipartEventView::TextRead(t@),
            MultipartEvent::ContentFailed => MultipartEventView::ContentFailed,
        }
    }
}

/// What the reader of the multipart body is to do next.
pub enum UploadStep {
    /// Read the next field.
    NextField,
    /// Read the current field's content as bytes.
    ReadBytes,
    /// Read the current field's content as text.
    ReadText,
    /// The upload is complete, or refused.
    Done(Result<Upload, UploadError>),
}

/// The model of an [`UploadStep`].
pub enum UploadStepView {
    NextField,
    ReadBytes,
    ReadText,
    Done(Result<UploadView, UploadError>),
}

impl View for UploadStep {
    type V = UploadStepView;

    open spec fn view(&self) -> UploadStepView {
        match self {
            UploadStep::NextField => UploadStepView::NextField,
            UploadStep::ReadBytes => UploadStepView::ReadBytes,
            UploadStep::ReadText => UploadStepView::ReadText,
            UploadStep::Done(Ok(u)) => UploadStepView::Done(Ok(u@)),
            UploadStep::Done(Err(e)) => UploadStepView::Done(Err(*e)),
        }
    }
}

/// What the collector waits for.
pub enum Awaiting {
    /// The next field.
    Field,
    /// The content of a `file` field, with its file name and content type.
    Audio { filename: String, content_type: String },
    /// The content of a `language` field.
    Language,
    /// Nothing: the upload is complete or refused.
    Nothing,
}

/// The model of [`Awaiting`].
pub enum AwaitingView {
    Field,
    Audio { filename: Seq<char>, content_type: Seq<char> },
    Language,
    Nothing,
}

impl View for Awaiting {
    type V = AwaitingView;

    open spec fn view(&self) -> AwaitingView {
        match self {
            Awaiting::Field => AwaitingView::Field,
            Awaiting::Audio { filename, content_type } => AwaitingView::Audio {
                filename: filename@,
                content_type: content_type@,
            },
            Awaiting::Language => AwaitingView::Language,
            Awaiting::Nothing => AwaitingView::Nothing,
        }
    }
}

/// Collects the audio upload from the fields of a multipart body: the last
/// `file` field gives the audio, the last `language` field the language,
/// and other fields are passed over.
pub struct UploadCollector {
    audio: Option<(Vec<u8>, String, String)>,
    language: Option<String>,
    awaiting: Awaiting,
}

/// The model of an [`UploadCollector`].
pub struct CollectorView {
    pub audio: Option<(Seq<u8>, Seq<char>, Seq<char>)>,
    pub language: Option<Seq<char>>,
    pub awaiting: AwaitingView,
}

impl View for UploadCollector {
    type V = CollectorView;

    closed spec fn view(&self) -> CollectorView {
        CollectorView {
            audio: match self.audio {
                Some((b, f, c)) => Some((b@, f@, c@)),
                None => None,
            },
            language: self.language.deep_view(),
            awaiting: self.awaiting@,
        }
    }
}

/// Whether the collector in state `c` can take event `e`: a field or the
/// end of the fields when it waits for a field; a field's content when it
/// waits for one.
pub open spec fn collector_accepts(c: CollectorView, e: MultipartEventView) -> bool {
    match c.awaiting {
        AwaitingView::Field => e is Field || e is NoMoreFields || e is FieldFailed,
        AwaitingView::Audio { .. } => e is BytesRead || e is ContentFailed,
        AwaitingView::Language => e is TextRead || e is ContentFailed,
        AwaitingView::Nothing => false,
    }
}

/// The upload that the collected fields make, or why they make none.
pub open spec fn finished_upload(
    audio: Option<(Seq<u8>, Seq<char>, Seq<char>)>,
    language: Option<Seq<char>>,
) -> Result<UploadView, UploadError> {
    match audio {
        None => Err(UploadError::MissingFile),
        Some((bytes, filename, content_type)) => if bytes.len() == 0 {
            Err(UploadError::EmptyAudio)
        } else {
            Ok(UploadView { bytes, filename, content_type, language })
        },
    }
}

/// The file name used when the `file` field gives none.
pub open spec fn default_filename() -> Seq<char> {
    "audio.wav"@
}

/// The content type used when the `file` field gives none.
pub open spec fn default_content_type() -> Seq<char> {
    "audio/wav"@
}

/// `value`, or `default` when there is none.
pub open spec fn or_default(value: Option<Seq<char>>, default: Seq<char>) -> Seq<char> {
    match value {
        Some(v) => v,
        None => default,
    }
}

/// One step of the collector: its next state and what the reader is to do.
pub open spec fn collector_step(c: CollectorView, e: MultipartEventView) -> (CollectorView, UploadStepView) {
    let done = CollectorView { audio: None, language: None, awaiting: AwaitingView::Nothing };
    let next_field = CollectorView { awaiting: AwaitingView::Field, ..c };
    match e {
        MultipartEventView::Field { name, file_name, content_type } => if name == Some("file"@) {
            (
                CollectorView {
                    awaiting: AwaitingView::Audio {
                        filename: or_default(file_name, default_filename()),
                        content_type: or_default(content_type, default_content_type()),
                    },
                    ..c
                },
                UploadStepView::ReadBytes,
            )
        } else if name == Some("language"@) {
            (CollectorView { awaiting: AwaitingView::Language, ..c }, UploadStepView::ReadText)
        } else {
            (next_field, UploadStepView::NextField)
        },
        MultipartEventView::NoMoreFields => (
            done,
            UploadStepView::Done(finished_upload(c.audio, c.language)),
        ),
        MultipartEventView::FieldFailed => (
            done,
            UploadStepView::Done(Err(UploadError::InvalidMultipart)),
        ),
        MultipartEventView::BytesRead(bytes) => match c.awaiting {
            AwaitingView::Audio { filename, content_type } => (
                CollectorView {
                    audio: Some((bytes, filename, content_type)),
                    awaiting: AwaitingView::Field,
                    ..c
                },
                UploadStepView::NextField,
            ),
            _ => (c, UploadStepView::NextField),
        },
        MultipartEventView::TextRead(text) => (
            CollectorView { language: Some(text), awaiting: AwaitingView::Field, ..c },
            UploadStepView::NextField,
        ),
        MultipartEventView::ContentFailed => (
            done,
            UploadStepView::Done(
                Err(
                    if c.awaiting is Audio {
                        UploadError::AudioUnreadable
                    } else {
                        UploadError::LanguageUnreadable
                    },
                ),
            ),
        ),
    }
}

/// Whether `name` is the field name `expected`.
fn is_field_named(name: &Option<String>, expected: &str) -> (b: bool)
    ensures
        b == (name.deep_view() == Some(expected@)),
{
    match name {
        Some(n) => {
            let a = chars_of(n.as_str());
            let b = chars_of(expected);
            same_chars(&a, &b)
        },
        None => false,
    }
}

/// `value`, or the text `default` when there is none.
fn text_or(value: Option<String>, default: &str) -> (text: String)
    ensures
        text@ == or_default(value.deep_view(), default@),
{
    match value {
        Some(v) => v,
        None => String::from_str(default),
    }
}

impl UploadCollector {
    /// A collector that has seen no field yet and waits for the first.
    pub fn new() -> (c: Self)
        ensures
            c@ == (CollectorView { audio: None, language: None, awaiting: AwaitingView::Field }),
    {
        UploadCollector { audio: None, language: None, awaiting: Awaiting::Field }
    }

    /// Whether the collector can take `event` now.
    pub fn accepts(&self, event: &MultipartEvent) -> (b: bool)
        ensures
            b == collector_accepts(self@, event@),
    {
        match (&self.awaiting, event) {
            (Awaiting::Field, MultipartEvent::Field { .. }) => true,
            (Awaiting::Field, MultipartEvent::NoMoreFields) => true,
            (Awaiting::Field, MultipartEvent::FieldFailed) => true,
            (Awaiting::Audio { .. }, MultipartEvent::BytesRead(_)) => true,
            (Awaiting::Audio { .. }, MultipartEvent::ContentFailed) => true,
            (Awaiting::Language, MultipartEvent::TextRead(_)) => true,
            (Awaiting::Language, MultipartEvent::ContentFailed) => true,
            _ => false,
        }
    }

    /// Takes one event from the reader of the multipart body and says what
    /// it is to do next.
    pub fn step(self, event: MultipartEvent) -> (r: (Self, UploadStep))
        requires
            collector_accepts(self@, event@),
        ensures
            (r.0@, r.1@) == collector_step(self@, event@),
    {
        let UploadCollector { audio, language, awaiting } = self;
        match event {
            MultipartEvent::Field { name, file_name, content_type } => {
                if is_field_named(&name, "file") {
                    let filename = text_or(file_name, "audio.wav");
                    let content_type = text_or(content_type, "audio/wav");
                    (
                        UploadCollector {
                            audio,
                            language,
                            awaiting: Awaiting::Audio { filename, content_type },
                        },
                        UploadStep::ReadBytes,
                    )
                } else if is_field_named(&name, "language") {
                    (UploadCollector { audio, language, awaiting: Awaiting::Language }, UploadStep::ReadText)
                } else {
                    (UploadCollector { audio, language, awaiting: Awaiting::Field }, UploadStep::NextField)
                }
            },
            MultipartEvent::NoMoreFields => {
                let result = match audio {
                    None => Err(UploadError::MissingFile),
                    Some((bytes, filename, content_type)) => {
                        if bytes.len() == 0 {
                            Err(UploadError::EmptyAudio)
                        } else {
                            Ok(Upload { bytes, filename, content_type, language })
                        }
                    },
                };
                (UploadCollector { audio: None, language: None, awaiting: Awaiting::Nothing }, UploadStep::Done(result))
            },
            MultipartEvent::FieldFailed => (
                UploadCollector { audio: None, language: None, awaiting: Awaiting::Nothing },
                UploadStep::Done(Err(UploadError::InvalidMultipart)),
            ),
            MultipartEvent::BytesRead(bytes) => match awaiting {
                Awaiting::Audio { filename, content_type } => (
                    UploadCollector {
                        audio: Some((bytes, filename, content_type)),
                        language,
                        awaiting: Awaiting::Field,
                    },
                    UploadStep::NextField,
                ),
                _ => (UploadCollector { audio, language, awaiting }, UploadStep::NextField),
            },
            MultipartEvent::TextRead(text) => (
                UploadCollector { audio, language: Some(text), awaiting: Awaiting::Field },
                UploadStep::NextField,
            ),
            MultipartEvent::ContentFailed => {
                let error = match awaiting {
                    Awaiting::Audio { .. } => UploadError::AudioUnreadable,
                    _ => UploadError::LanguageUnreadable,
                };
                (
                    UploadCollector { audio: None, language: None, awaiting: Awaiting::Nothing },
                    UploadStep::Done(Err(error)),
                )
            },
        }
    }
}


/// The steps a collector in state `c` takes for `events`, and its state
/// after them.
pub open spec fn collector_run(c: CollectorView, events: Seq<MultipartEventView>) -> (
    CollectorView,
    Seq<UploadStepView>,
)
    decreases events.len(),
{
    if events.len() == 0 {
        (c, Seq::empty())
    } else {
        let (next, step) = collector_step(c, events[0]);
        let (last, steps) = collector_run(next, events.drop_first());
        (last, seq![step] + steps)
    }
}

/// Whether each of `events` is one the collector can take when it comes.
pub open spec fn collector_run_accepted(c: CollectorView, events: Seq<MultipartEventView>) -> bool
    decreases events.len(),
{
    events.len() == 0 || (collector_accepts(c, events[0]) && collector_run_accepted(
        collector_step(c, events[0]).0,
        events.drop_first(),
    ))
}

/// One field of a multipart body: its name, file name and content type as
/// far as given, and its content (as bytes, or as text).
pub struct PartView {
    pub name: Option<Seq<char>>,
    pub file_name: Option<Seq<char>>,
    pub content_type: Option<Seq<char>>,
    pub bytes: Seq<u8>,
    pub text: Seq<char>,
}

/// What a reader reports for one field: the field, then its content when
/// the collector asks for it.
pub open spec fn part_events(p: PartView) -> Seq<MultipartEventView> {
    let field = MultipartEventView::Field {
        name: p.name,
        file_name: p.file_name,
        content_type: p.content_type,
    };
    if p.name == Some("file"@) {
        seq![field, MultipartEventView::BytesRead(p.bytes)]
    } else if p.name == Some("language"@) {
        seq![field, MultipartEventView::TextRead(p.text)]
    } else {
        seq![field]
    }
}

/// What a reader reports for a whole multipart body that reads without
/// error.
pub open spec fn body_events(parts: Seq<PartView>) -> Seq<MultipartEventView>
    decreases parts.len(),
{
    if parts.len() == 0 {
        seq![MultipartEventView::NoMoreFields]
    } else {
        part_events(parts[0]) + body_events(parts.drop_first())
    }
}

/// The last field of `parts` named `name`, if any.
pub open spec fn last_named(parts: Seq<PartView>, name: Seq<char>) -> Option<PartView>
    decreases parts.len(),
{
    if parts.len() == 0 {
        None
    } else {
        match last_named(parts.drop_first(), name) {
            Some(p) => Some(p),
            None => if parts[0].name == Some(name) {
                Some(parts[0])
            } else {
                None
            },
        }
    }
}

/// The audio a `file` field gives.
pub open spec fn audio_of(p: PartView) -> (Seq<u8>, Seq<char>, Seq<char>) {
    (p.bytes, or_default(p.file_name, default_filename()), or_default(p.content_type, default_content_type()))
}

/// The audio of the last `file` field of `parts`, or `audio` if none.
pub open spec fn last_audio_or(parts: Seq<PartView>, audio: Option<(Seq<u8>, Seq<char>, Seq<char>)>) -> Option<
    (Seq<u8>, Seq<char>, Seq<char>),
> {
    match last_named(parts, "file"@) {
        Some(p) => Some(audio_of(p)),
        None => audio,
    }
}

/// The text of the last `language` field of `parts`, or `language` if none.
pub open spec fn last_language_or(parts: Seq<PartView>, language: Option<Seq<char>>) -> Option<Seq<char>> {
    match last_named(parts, "language"@) {
        Some(p) => Some(p.text),
        None => language,
    }
}

/// The upload a multipart body gives: the audio of its last `file` field
/// and the text of its last `language` field; without a `file` field, or
/// with an empty one, it is refused.
pub open spec fn upload_of(parts: Seq<PartView>) -> Result<UploadView, UploadError> {
    finished_upload(last_audio_or(parts, None), last_language_or(parts, None))
}

proof fn lemma_collects_last_fields(
    parts: Seq<PartView>,
    audio: Option<(Seq<u8>, Seq<char>, Seq<char>)>,
    language: Option<Seq<char>>,
)
    ensures
        collector_run_accepted(
            CollectorView { audio, language, awaiting: AwaitingView::Field },
            body_events(parts),
        ),
        collector_run(CollectorView { audio, language, awaiting: AwaitingView::Field }, body_events(parts)).1.len() > 0,
        collector_run(CollectorView { audio, language, awaiting: AwaitingView::Field }, body_events(parts)).1.last()
            == UploadStepView::Done(finished_upload(last_audio_or(parts, audio), last_language_or(parts, language))),
        forall|i: int| 0 <= i < collector_run(CollectorView { audio, language, awaiting: AwaitingView::Field }, body_events(parts)).1.len() - 1
            ==> !(#[trigger] collector_run(CollectorView { audio, language, awaiting: AwaitingView::Field }, body_events(parts)).1[i] is Done),
    decreases parts.len(),
{
    let c = CollectorView { audio, language, awaiting: AwaitingView::Field };
    let events = body_events(parts);
    reveal_strlit("file");
    reveal_strlit("language");
    assert("file"@ != "language"@) by {
        assert("file"@.len() != "language"@.len());
    }
    if parts.len() == 0 {
        assert(events == seq![MultipartEventView::NoMoreFields]);
        assert(events.drop_first() =~= Seq::<MultipartEventView>::empty());
        let (done, step) = collector_step(c, events[0]);
        assert(collector_run(done, events.drop_first()).1 =~= Seq::<UploadStepView>::empty());
        assert(collector_run_accepted(done, events.drop_first()));
        let steps = collector_run(c, events).1;
        assert(steps =~= seq![UploadStepView::Done(finished_upload(audio, language))]);
    } else {
        let p = parts[0];
        let rest = parts.drop_first();
        let tail = body_events(rest);
        assert(events == part_events(p) + tail);
        let field = MultipartEventView::Field { name: p.name, file_name: p.file_name, content_type: p.content_type };
        assert(events[0] == field);
        if p.name == Some("file"@) {
            let (a, fname, ct) = audio_of(p);
            let c1 = collector_step(c, field).0;
            assert(c1 == CollectorView { awaiting: AwaitingView::Audio { filename: fname, content_type: ct }, ..c });
            let e1 = events.drop_first();
            assert(e1 =~= seq![MultipartEventView::BytesRead(p.bytes)] + tail);
            let c2 = collector_step(c1, e1[0]).0;
            assert(c2 == CollectorView { audio: Some(audio_of(p)), language, awaiting: AwaitingView::Field });
            assert(e1.drop_first() =~= tail);
            lemma_collects_last_fields(rest, Some(audio_of(p)), language);
            assert(last_audio_or(parts, audio) == last_audio_or(rest, Some(audio_of(p))));
            assert(last_language_or(parts, language) == last_language_or(rest, language));
            let steps2 = collector_run(c2, tail).1;
            let steps1 = collector_run(c1, e1).1;
            let steps = collector_run(c, events).1;
            assert(steps1 == seq![UploadStepView::NextField] + steps2);
            assert(steps == seq![UploadStepView::ReadBytes] + steps1);
            assert forall|i: int| 0 <= i < steps.len() - 1 implies !(#[trigger] steps[i] is Done) by {
                if i >= 2 {
                    assert(steps[i] == steps2[i - 2]);
                }
            }
            assert(steps.last() == steps2.last());
            assert(collector_run_accepted(c1, e1));
            assert(collector_run_accepted(c, events));
        } else if p.name == Some("language"@) {
            let c1 = collector_step(c, field).0;
            assert(c1 == CollectorView { awaiting: AwaitingView::Language, ..c });
            let e1 = events.drop_first();
            assert(e1 =~= seq![MultipartEventView::TextRead(p.text)] + tail);
            let c2 = collector_step(c1, e1[0]).0;
            assert(c2 == CollectorView { audio, language: Some(p.text), awaiting: AwaitingView::Field });
            assert(e1.drop_first() =~= tail);
            lemma_collects_last_fields(rest, audio, Some(p.text));
            assert(last_audio_or(parts, audio) == last_audio_or(rest, audio));
            assert(last_language_or(parts, language) == last_language_or(rest, Some(p.text)));
            let steps2 = collector_run(c2, tail).1;
            let steps1 = collector_run(c1, e1).1;
            let steps = collector_run(c, events).1;
            assert(steps1 == seq![UploadStepView::NextField] + steps2);
            assert(steps == seq![UploadStepView::ReadText] + steps1);
            assert forall|i: int| 0 <= i < steps.len() - 1 implies !(#[trigger] steps[i] is Done) by {
                if i >= 2 {
                    assert(steps[i] == steps2[i - 2]);
                }
            }
            assert(steps.last() == steps2.last());
            assert(collector_run_accepted(c1, e1));
            assert(collector_run_accepted(c, events));
        } else {
            let c1 = collector_step(c, field).0;
            assert(c1 == c);
            assert(events.drop_first() =~= tail);
            lemma_collects_last_fields(rest, audio, language);
            assert(last_audio_or(parts, audio) == last_audio_or(rest, audio));
            assert(last_language_or(parts, language) == last_language_or(rest, language));
            let steps1 = collector_run(c1, tail).1;
            let steps = collector_run(c, events).1;
            assert(steps == seq![UploadStepView::NextField] + steps1);
            assert forall|i: int| 0 <= i < steps.len() - 1 implies !(#[trigger] steps[i] is Done) by {
                if i >= 1 {
                    assert(steps[i] == steps1[i - 1]);
                }
            }
            assert(steps.last() == steps1.last());
            assert(collector_run_accepted(c, events));
        }
    }
}

/// A multipart body that reads without error is taken by the collector
/// event by event and gives, at its end and only there, the upload made of
/// its last `file` field and its last `language` field; other fields are
/// passed over; without a `file` field, or with an empty last one, the
/// upload is refused.
pub proof fn law_upload_from_last_fields(parts: Seq<PartView>)
    ensures
        collector_run_accepted(
            CollectorView { audio: None, language: None, awaiting: AwaitingView::Field },
            body_events(parts),
        ),
        collector_run(CollectorView { audio: None, language: None, awaiting: AwaitingView::Field }, body_events(parts)).1.last()
            == UploadStepView::Done(upload_of(parts)),
        forall|i: int| 0 <= i < collector_run(CollectorView { audio: None, language: None, awaiting: AwaitingView::Field }, body_events(parts)).1.len() - 1
            ==> !(#[trigger] collector_run(CollectorView { audio: None, language: None, awaiting: AwaitingView::Field }, body_events(parts)).1[i] is Done),
{
    lemma_collects_last_fields(parts, None, None);
}

} // verus!
