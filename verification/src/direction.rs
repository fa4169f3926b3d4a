//! The two directions of a relayed connection, used to tag capture buffers
//! and to pick the sub-directory a capture is stored under.

use vstd::prelude::*;

verus! {

/// Which peer a captured byte stream originated from: `Client` tags bytes
/// sent by the inbound peer, `Server` tags bytes sent by the outbound peer.
#[derive(Clone, Copy, PartialEq, Eq, Structural, Debug)]
pub enum Direction {
    Client,
    Server,
}

impl Direction {
    /// The sub-directory name this direction's captures are stored under.
    pub open spec fn name_spec(self) -> Seq<char> {
        match self {
            Direction::Client => "client"@,
            Direction::Server => "server"@,
        }
    }

    /// Directory name of this direction, `"client"` or `"server"`.
    pub fn name(&self) -> (r: &'static str)
        ensures
            r@ == self.name_spec(),
    {
        match self {
            Direction::Client => "client",
            Direction::Server => "server",
        }
    }
}

} // verus!
