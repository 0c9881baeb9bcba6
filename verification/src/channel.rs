use vstd::prelude::*;

verus! {

/// A capture/compare channel of a timer.
#[derive(Clone, Copy, Debug, PartialEq, Eq, Structural)]
pub enum Channel {
    Ch1,
    Ch2,
    Ch3,
    Ch4,
}

impl Channel {
    /// The zero-based index of the channel among the four.
    pub open spec fn index(self) -> nat {
        match self {
            Channel::Ch1 => 0,
            Channel::Ch2 => 1,
            Channel::Ch3 => 2,
            Channel::Ch4 => 3,
        }
    }

    /// The zero-based index of the channel, by which its capture/compare
    /// register and mode field are addressed.
    pub fn raw(&self) -> (r: usize)
        ensures
            r == self.index(),
            r < 4,
    {
        match self {
            Channel::Ch1 => 0,
            Channel::Ch2 => 1,
            Channel::Ch3 => 2,
            Channel::Ch4 => 3,
        }
    }
}

/// Distinct channels have distinct indices, so no two channels share a
/// capture/compare register or mode field.
pub proof fn lemma_index_injective(a: Channel, b: Channel)
    ensures
        a.index() == b.index() <==> a == b,
{
}

} // verus!
