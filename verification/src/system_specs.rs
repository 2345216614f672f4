//! The diagnostic snapshot that the feedback actions report.

use vstd::prelude::*;

verus! {

/// A snapshot of the runtime environment (operating system, hardware,
/// versions), carried in its canonical human-readable string form. The host
/// collects the underlying data asynchronously; this type holds the
/// serialized result that the clipboard and URL payloads are built from.
/// A snapshot is immutable once constructed.
pub struct SystemSpecs {
    text: String,
}

impl View for SystemSpecs {
    type V = Seq<char>;

    closed spec fn view(&self) -> Seq<char> {
        self.text@
    }
}

impl SystemSpecs {
    /// Wraps an already-serialized canonical string.
    pub fn new(text: String) -> (s: SystemSpecs)
        ensures
            s@ == text@,
    {
        SystemSpecs { text }
    }

    /// The canonical string form, exactly as the payloads use it.
    pub fn canonical_text(&self) -> (r: &String)
        ensures
            r@ == self@,
    {
        &self.text
    }

    /// An owned copy of the canonical string form.
    pub fn to_text(&self) -> (r: String)
        ensures
            r@ == self@,
    {
        self.text.clone()
    }
}

} // verus!
