//! The buffer that holds one raw line of user input.
//!
//! The buffer is owned by the session loop for the duration of one iteration;
//! reading a fresh line into it is the caller's concern. The view of an
//! `InputBuffer` is the character sequence of the line it holds.

use vstd::prelude::*;

verus! {

/// Holds one raw line of input, exactly as it was read.
pub struct InputBuffer {
    pub buffer: String,
}

impl View for InputBuffer {
    type V = Seq<char>;

    open spec fn view(&self) -> Seq<char> {
        self.buffer@
    }
}

impl InputBuffer {
    /// A fresh, empty buffer.
    pub fn new() -> (r: Self)
        ensures
            r@ == Seq::<char>::empty(),
    {
        Self { buffer: String::new() }
    }
}

} // verus!
