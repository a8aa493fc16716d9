//! The speech-to-text engine's configuration and the texts it produces.

use crate::text::{trim, trimmed};
use crate::transcript::SensitiveTranscript;
use std::path::PathBuf;
use vstd::prelude::*;

verus! {

/// The fewest samples worth transcribing: 100 ms of mono audio at 16 kHz.
pub const MIN_SAMPLES: usize = 1600;

/// `PathBuf` of the standard library. A path is carried through as it is;
/// nothing here looks inside one.
#[verifier::external_type_specification]
#[verifier::external_body]
pub struct ExPathBuf(PathBuf);

/// The path of the entry `name` in the directory `base`, as the platform
/// writes it.
pub uninterp spec fn joined_path(base: PathBuf, name: Seq<char>) -> PathBuf;

/// `Path::join` of the standard library: the path `name` adjoined to `base`.
/// The result is made of the two arguments and of nothing else; how it is
/// written depends on the platform's path syntax, so it is only named.
#[verifier::external_body]
fn join_path(base: &PathBuf, name: &str) -> (path: PathBuf)
    ensures
        path == joined_path(*base, name@),
{
    base.join(name)
}

/// The name of the model that is used until the user picks another.
pub open spec fn default_model_name() -> Seq<char> {
    "ggml-base.en.bin"@
}

/// The name of the model that is used until the user picks another.
pub fn default_model() -> (model_filename: String)
    ensures
        model_filename@ == default_model_name(),
{
    String::from_str("ggml-base.en.bin")
}

/// Where the models live, and how short a recording is ignored.
pub struct InferenceEngine {
    base_path: PathBuf,
    min_samples: usize,
}

impl InferenceEngine {
    /// The directory that holds the model files.
    pub closed spec fn base(&self) -> PathBuf {
        self.base_path
    }

    /// The number of samples below which a recording is not transcribed.
    pub closed spec fn threshold(&self) -> nat {
        self.min_samples as nat
    }

    /// An engine over the models in `app_data_dir`, with the default
    /// threshold.
    pub fn new(app_data_dir: PathBuf) -> (engine: Self)
        ensures
            engine.base() == app_data_dir,
            engine.threshold() == MIN_SAMPLES,
    {
        InferenceEngine { base_path: app_data_dir, min_samples: MIN_SAMPLES }
    }

    /// The same engine with another threshold.
    pub fn with_min_samples(self, min_samples: usize) -> (engine: Self)
        ensures
            engine.base() == self.base(),
            engine.threshold() == min_samples,
    {
        InferenceEngine { base_path: self.base_path, min_samples }
    }

    /// The threshold.
    pub fn min_samples(&self) -> (n: usize)
        ensures
            n == self.threshold(),
    {
        self.min_samples
    }

    /// The directory that holds the model files.
    pub fn base_path(&self) -> (path: &PathBuf)
        ensures
            *path == self.base(),
    {
        &self.base_path
    }

    /// The file of the model called `model_filename`: the entry of that
    /// name in the engine's directory.
    pub fn model_path(&self, model_filename: &str) -> (path: PathBuf)
        ensures
            path == joined_path(self.base(), model_filename@),
    {
        join_path(&self.base_path, model_filename)
    }
}

/// What the transcription engine made of a recording.
pub enum Transcription {
    /// The segments in the order in which the engine emitted them; `None`
    /// stands for a segment whose text could not be read.
    Segments(Vec<Option<String>>),
    /// The engine could not load the model or could not run it.
    Failed,
}

/// A `Transcription` as a mathematical value.
pub enum TranscriptionView {
    Segments(Seq<Option<Seq<char>>>),
    Failed,
}

impl View for Transcription {
    type V = TranscriptionView;

    open spec fn view(&self) -> TranscriptionView {
        match self {
            Transcription::Segments(segments) => TranscriptionView::Segments(segments.deep_view()),
            Transcription::Failed => TranscriptionView::Failed,
        }
    }
}

/// What the user reads where the model file is missing.
pub open spec fn missing_model_message(model_filename: Seq<char>) -> Seq<char> {
    "Error: AI model not found. Please download "@ + model_filename + " in settings."@
}

/// The readable segments, one after the other.
pub open spec fn joined(segments: Seq<Option<Seq<char>>>) -> Seq<char>
    decreases segments.len(),
{
    if segments.len() == 0 {
        Seq::empty()
    } else {
        match segments.last() {
            Some(text) => joined(segments.drop_last()) + text,
            None => joined(segments.drop_last()),
        }
    }
}

/// The transcript of a recording that was long enough and whose model was
/// found: the trimmed text of the segments, or nothing where the engine
/// failed.
pub open spec fn transcript_of(outcome: TranscriptionView) -> Seq<char> {
    match outcome {
        TranscriptionView::Segments(segments) => trimmed(joined(segments)),
        TranscriptionView::Failed => Seq::empty(),
    }
}

/// The transcript that tells the user to download `model_filename`.
pub fn missing_model_transcript(model_filename: &str) -> (transcript: SensitiveTranscript)
    ensures
        transcript@ == missing_model_message(model_filename@),
{
    let mut text = String::from_str("Error: AI model not found. Please download ");
    text.append(model_filename);
    text.append(" in settings.");
    SensitiveTranscript::new(text)
}

/// The transcript with no text.
pub fn empty_transcript() -> (transcript: SensitiveTranscript)
    ensures
        transcript@ == Seq::<char>::empty(),
{
    SensitiveTranscript::new(String::new())
}

/// The transcript of what the engine returned.
pub fn assemble_transcript(outcome: &Transcription) -> (transcript: SensitiveTranscript)
    ensures
        transcript@ == transcript_of(outcome@),
{
    match outcome {
        Transcription::Failed => empty_transcript(),
        Transcription::Segments(segments) => {
            let mut text = String::new();
            let mut i: usize = 0;
            while i < segments.len()
                invariant
                    i <= segments.len(),
                    text@ == joined(segments.deep_view().take(i as int)),
                decreases segments.len() - i,
            {
                proof {
                    let all = segments.deep_view();
                    assert(all.take(i + 1).drop_last() == all.take(i as int));
                    assert(all.take(i + 1).last() == segments[i as int].deep_view());
                }
                match &segments[i] {
                    Some(segment) => {
                        text.append(segment.as_str());
                    },
                    None => {},
                }
                i = i + 1;
            }
            proof {
                let all = segments.deep_view();
                assert(all.take(i as int) == all);
            }
            let raw = SensitiveTranscript::new(text);
            SensitiveTranscript::new(String::from_str(trim(raw.as_str())))
        },
    }
}

} // verus!
