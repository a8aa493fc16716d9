//! What happens to a transcript: it is refined where that is possible,
//! shown, and pasted into the application that has the focus.

use crate::session::Status;
use crate::transcript::SensitiveTranscript;
use vstd::prelude::*;

verus! {

/// One thing that the host does with a transcript.
pub enum DeliveryStep {
    /// Tell the observers.
    Notify(Status),
    /// Ask the refinement service for a better text.
    Refine(String),
    /// Show the text.
    Publish(String),
    /// Paste the text. A failure is noted and nothing is tried again.
    Paste(String),
}

/// A step as a mathematical value.
#[verifier::ext_equal]
pub enum StepView {
    Notify(Status),
    Refine(Seq<char>),
    Publish(Seq<char>),
    Paste(Seq<char>),
}

impl View for DeliveryStep {
    type V = StepView;

    open spec fn view(&self) -> StepView {
        match self {
            DeliveryStep::Notify(status) => StepView::Notify(*status),
            DeliveryStep::Refine(text) => StepView::Refine(text@),
            DeliveryStep::Publish(text) => StepView::Publish(text@),
            DeliveryStep::Paste(text) => StepView::Paste(text@),
        }
    }
}

/// The steps as mathematical values.
pub open spec fn step_views(steps: Seq<DeliveryStep>) -> Seq<StepView> {
    Seq::new(steps.len(), |i: int| steps[i]@)
}

/// The text that is shown and pasted: the refined one, or the transcript as
/// it is where the refinement service gave none.
pub open spec fn final_text(transcript: Seq<char>, refined: Option<Seq<char>>) -> Seq<char> {
    match refined {
        Some(text) => text,
        None => transcript,
    }
}

/// The steps before the refinement service answers.
pub open spec fn opening_steps(transcript: Seq<char>) -> Seq<StepView> {
    seq![StepView::Notify(Status::Processing), StepView::Refine(transcript)]
}

/// The steps after the refinement service answered. The observers hear
/// "Ready" whether or not the paste went well.
pub open spec fn closing_steps(transcript: Seq<char>, refined: Option<Seq<char>>) -> Seq<
    StepView,
> {
    seq![
        StepView::Publish(final_text(transcript, refined)),
        StepView::Paste(final_text(transcript, refined)),
        StepView::Notify(Status::Ready),
    ]
}

/// A transcript on its way to the user. It is used once and then gone.
pub struct Delivery {
    transcript: SensitiveTranscript,
}

impl View for Delivery {
    type V = Seq<char>;

    closed spec fn view(&self) -> Seq<char> {
        self.transcript@
    }
}

impl Delivery {
    /// Takes over `transcript`, and returns the first steps.
    pub fn begin(transcript: SensitiveTranscript) -> (started: (Delivery, Vec<DeliveryStep>))
        ensures
            started.0@ == transcript@,
            step_views(started.1@) == opening_steps(transcript@),
    {
        let text = String::from_str(transcript.as_str());
        let steps = vec![DeliveryStep::Notify(Status::Processing), DeliveryStep::Refine(text)];
        (Delivery { transcript }, steps)
    }

    /// Takes in the answer of the refinement service, `None` where it could
    /// not be reached, and returns the remaining steps.
    pub fn finish(self, refined: Option<String>) -> (steps: Vec<DeliveryStep>)
        ensures
            step_views(steps@) == closing_steps(
                self@,
                match refined {
                    Some(text) => Some(text@),
                    None => None,
                },
            ),
    {
        let text = match refined {
            Some(text) => text,
            None => String::from_str(self.transcript.as_str()),
        };
        let shown = text.clone();
        vec![
            DeliveryStep::Publish(shown),
            DeliveryStep::Paste(text),
            DeliveryStep::Notify(Status::Ready),
        ]
    }
}

} // verus!
