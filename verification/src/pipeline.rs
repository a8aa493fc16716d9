//! The transcription pipeline: one recording, from the first chunk of audio
//! to the transcript.
//!
//! The pipeline decides and the host acts. The host hands it what happened
//! (a chunk arrived, the channel closed, the model file was looked for, the
//! engine returned) and gets back what to do next.

use crate::inference::{
    assemble_transcript, empty_transcript, missing_model_message, missing_model_transcript,
    transcript_of, InferenceEngine, Transcription, TranscriptionView,
};
use crate::transcript::SensitiveTranscript;
use vstd::prelude::*;

verus! {

/// How far a pipeline has come.
#[derive(Clone, Copy, Debug, PartialEq, Eq, Structural)]
pub enum Phase {
    /// Taking chunks from the channel.
    Collecting,
    /// Waiting to hear whether the model file exists.
    CheckingModel,
    /// Waiting for the engine.
    Transcribing,
    /// The transcript was delivered.
    Finished,
}

/// What happened outside.
pub enum PipelineEvent<S> {
    /// The channel handed over a chunk.
    Chunk(Vec<S>),
    /// The channel is closed and holds nothing more.
    Closed,
    /// The model file was looked for.
    ModelChecked { present: bool },
    /// The engine returned.
    Transcribed(Transcription),
}

/// What the host does next.
pub enum PipelineAction<S> {
    /// Wait for the next chunk, or for the channel to close.
    Receive,
    /// Find out whether the model file exists.
    CheckModel { model_filename: String },
    /// Run the engine on the whole recording.
    Transcribe { samples: Vec<S>, model_filename: String },
    /// Hand on the transcript; the pipeline is done.
    Deliver(SensitiveTranscript),
    /// The event does not belong to the phase and changed nothing.
    Ignore,
}

/// A pipeline as a mathematical value.
#[verifier::ext_equal]
pub struct PipelineState<S> {
    pub phase: Phase,
    pub min_samples: nat,
    pub model_filename: Seq<char>,
    pub samples: Seq<S>,
}

/// An event as a mathematical value.
#[verifier::ext_equal]
pub enum EventView<S> {
    Chunk(Seq<S>),
    Closed,
    ModelChecked { present: bool },
    Transcribed(TranscriptionView),
}

/// An action as a mathematical value.
#[verifier::ext_equal]
pub enum ActionView<S> {
    Receive,
    CheckModel { model_filename: Seq<char> },
    Transcribe { samples: Seq<S>, model_filename: Seq<char> },
    Deliver(Seq<char>),
    Ignore,
}

impl<S> View for PipelineEvent<S> {
    type V = EventView<S>;

    open spec fn view(&self) -> EventView<S> {
        match self {
            PipelineEvent::Chunk(chunk) => EventView::Chunk(chunk@),
            PipelineEvent::Closed => EventView::Closed,
            PipelineEvent::ModelChecked { present } => EventView::ModelChecked {
                present: *present,
            },
            PipelineEvent::Transcribed(outcome) => EventView::Transcribed(outcome@),
        }
    }
}

impl<S> View for PipelineAction<S> {
    type V = ActionView<S>;

    open spec fn view(&self) -> ActionView<S> {
        match self {
            PipelineAction::Receive => ActionView::Receive,
            PipelineAction::CheckModel { model_filename } => ActionView::CheckModel {
                model_filename: model_filename@,
            },
            PipelineAction::Transcribe { samples, model_filename } => ActionView::Transcribe {
                samples: samples@,
                model_filename: model_filename@,
            },
            PipelineAction::Deliver(transcript) => ActionView::Deliver(transcript@),
            PipelineAction::Ignore => ActionView::Ignore,
        }
    }
}

/// The pipeline of a recording that has not begun.
pub open spec fn initial_state<S>(min_samples: nat, model_filename: Seq<char>) -> PipelineState<S> {
    PipelineState { phase: Phase::Collecting, min_samples, model_filename, samples: Seq::empty() }
}

/// What an event makes of a pipeline, and what the host is told to do.
///
/// While collecting, a chunk is put behind the samples held so far. When the
/// channel closes, a recording shorter than the threshold is answered with
/// the empty transcript; for a longer one the model file is looked for. A
/// missing model is answered with the message that names it; with the model
/// at hand the whole recording goes to the engine, and what the engine
/// returns becomes the transcript. An event that the phase does not wait for
/// changes nothing.
pub open spec fn next<S>(s: PipelineState<S>, e: EventView<S>) -> (PipelineState<S>, ActionView<S>) {
    match (s.phase, e) {
        (Phase::Collecting, EventView::Chunk(chunk)) => (
            PipelineState { samples: s.samples + chunk, ..s },
            ActionView::Receive,
        ),
        (Phase::Collecting, EventView::Closed) => if s.samples.len() < s.min_samples {
            (
                PipelineState { phase: Phase::Finished, samples: Seq::empty(), ..s },
                ActionView::Deliver(Seq::empty()),
            )
        } else {
            (
                PipelineState { phase: Phase::CheckingModel, ..s },
                ActionView::CheckModel { model_filename: s.model_filename },
            )
        },
        (Phase::CheckingModel, EventView::ModelChecked { present }) => if present {
            (
                PipelineState { phase: Phase::Transcribing, samples: Seq::empty(), ..s },
                ActionView::Transcribe { samples: s.samples, model_filename: s.model_filename },
            )
        } else {
            (
                PipelineState { phase: Phase::Finished, samples: Seq::empty(), ..s },
                ActionView::Deliver(missing_model_message(s.model_filename)),
            )
        },
        (Phase::Transcribing, EventView::Transcribed(outcome)) => (
            PipelineState { phase: Phase::Finished, ..s },
            ActionView::Deliver(transcript_of(outcome)),
        ),
        _ => (s, ActionView::Ignore),
    }
}

/// The pipeline of one recording.
pub struct Pipeline<S> {
    phase: Phase,
    min_samples: usize,
    model_filename: String,
    samples: Vec<S>,
}

impl<S> View for Pipeline<S> {
    type V = PipelineState<S>;

    closed spec fn view(&self) -> PipelineState<S> {
        PipelineState {
            phase: self.phase,
            min_samples: self.min_samples as nat,
            model_filename: self.model_filename@,
            samples: self.samples@,
        }
    }
}

impl<S> Pipeline<S> {
    /// The pipeline of a new recording, to be transcribed by `engine` with the
    /// model `model_filename`.
    pub fn new(engine: &InferenceEngine, model_filename: String) -> (pipeline: Self)
        ensures
            pipeline@ == initial_state::<S>(engine.threshold(), model_filename@),
    {
        Pipeline {
            phase: Phase::Collecting,
            min_samples: engine.min_samples(),
            model_filename,
            samples: Vec::new(),
        }
    }

    /// Takes in `event`, and says what to do next.
    pub fn step(&mut self, event: PipelineEvent<S>) -> (action: PipelineAction<S>)
        ensures
            (final(self)@, action@) == next(old(self)@, event@),
    {
        match self.phase {
            Phase::Collecting => match event {
                PipelineEvent::Chunk(chunk) => {
                    let mut chunk = chunk;
                    self.samples.append(&mut chunk);
                    PipelineAction::Receive
                },
                PipelineEvent::Closed => {
                    if self.samples.len() < self.min_samples {
                        self.phase = Phase::Finished;
                        self.samples = Vec::new();
                        PipelineAction::Deliver(empty_transcript())
                    } else {
                        self.phase = Phase::CheckingModel;
                        PipelineAction::CheckModel { model_filename: self.model_filename.clone() }
                    }
                },
                _ => PipelineAction::Ignore,
            },
            Phase::CheckingModel => match event {
                PipelineEvent::ModelChecked { present } => {
                    let mut samples: Vec<S> = Vec::new();
                    core::mem::swap(&mut self.samples, &mut samples);
                    if present {
                        self.phase = Phase::Transcribing;
                        PipelineAction::Transcribe {
                            samples,
                            model_filename: self.model_filename.clone(),
                        }
                    } else {
                        self.phase = Phase::Finished;
                        PipelineAction::Deliver(
                            missing_model_transcript(self.model_filename.as_str()),
                        )
                    }
                },
                _ => PipelineAction::Ignore,
            },
            Phase::Transcribing => match event {
                PipelineEvent::Transcribed(outcome) => {
                    self.phase = Phase::Finished;
                    PipelineAction::Deliver(assemble_transcript(&outcome))
                },
                _ => PipelineAction::Ignore,
            },
            Phase::Finished => PipelineAction::Ignore,
        }
    }

    /// How far the pipeline has come.
    pub fn phase(&self) -> (phase: Phase)
        ensures
            phase == self@.phase,
    {
        self.phase
    }

    /// The number of samples held.
    pub fn len(&self) -> (n: usize)
        ensures
            n == self@.samples.len(),
    {
        self.samples.len()
    }
}

} // verus!
