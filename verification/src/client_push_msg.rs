//! The plain text that a client pushes.
use vstd::prelude::*;

verus! {

/// The plain text that a client pushes.
pub struct ClientPushMsg {
    pub msg: String,
}

impl ClientPushMsg {
    /// An empty message.
    pub fn new() -> (m: Self)
        ensures
            m.msg@ == Seq::<char>::empty(),
    {
        Self { msg: String::new() }
    }

    /// Sets the text.
    pub fn msg(&mut self, msg: &str) -> (r: &mut Self)
        ensures
            r.msg@ == msg@,
            *final(self) == *final(r),
    {
        self.msg = msg.to_string();
        self
    }
}

} // verus!
