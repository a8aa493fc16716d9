//! The container for recognised speech.

use vstd::prelude::*;

verus! {

/// Recognised speech. The text is sensitive: the container cannot be copied,
/// and its storage is overwritten when it is wiped or dropped.
#[derive(Debug)]
pub struct SensitiveTranscript {
    text: String,
}

impl View for SensitiveTranscript {
    type V = Seq<char>;

    closed spec fn view(&self) -> Seq<char> {
        self.text@
    }
}

/// `Zeroize::zeroize` of the crate zeroize, on a `String`: it overwrites the
/// bytes of the text and the rest of its allocation with zeros and leaves the
/// string empty. It does not unwind.
#[verifier::external_body]
fn wipe_string(text: &mut String)
    ensures
        final(text)@ == Seq::<char>::empty(),
    opens_invariants none
    no_unwind
{
    zeroize::Zeroize::zeroize(text);
}

impl SensitiveTranscript {
    /// Wraps `s`.
    pub fn new(s: String) -> (transcript: Self)
        ensures
            transcript@ == s@,
    {
        SensitiveTranscript { text: s }
    }

    /// The text.
    pub fn as_str(&self) -> (s: &str)
        ensures
            s@ == self@,
    {
        self.text.as_str()
    }

    /// Overwrites the text in memory and leaves the transcript empty.
    pub fn zeroize(&mut self)
        ensures
            final(self)@ == Seq::<char>::empty(),
    {
        wipe_string(&mut self.text);
    }
}

impl Drop for SensitiveTranscript {
    fn drop(&mut self)
        ensures
            final(self)@ == Seq::<char>::empty(),
        opens_invariants none
        no_unwind
    {
        wipe_string(&mut self.text);
    }
}

} // verus!
