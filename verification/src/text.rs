use vstd::prelude::*;

verus! {

/// Some text.
#[derive(Clone)]
pub struct Text {
    bytes: Vec<u8>,
}

impl View for Text {
    type V = Seq<u8>;

    closed spec fn view(&self) -> Seq<u8> {
        self.bytes@
    }
}

impl Text {
    /// Create a new `Text` from bytes.
    pub fn new(bytes: Vec<u8>) -> (t: Text)
        ensures
            t@ == bytes@,
    {
        Text { bytes }
    }

    /// Get bytes from the `Text`.
    pub fn bytes(&self) -> (r: &[u8])
        ensures
            r@ == self@,
    {
        self.bytes.as_slice()
    }
}

} // verus!
