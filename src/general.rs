use vstd::prelude::*;

verus! {

/// Body of the echo endpoint, answered as it came.
pub struct Message {
    pub content: String,
}

impl Message {
    pub fn new(content: String) -> (r: Message)
        ensures
            r.content == content,
    {
        Message { content }
    }
}

} // verus!
