//! Channel identifiers.

use vstd::prelude::*;
use crate::text::{decimal, decimal_string};

verus! {

/// The identifier of a channel on a connection.
#[derive(Debug, Clone, Copy, PartialEq, Eq, Structural, Hash, PartialOrd, Ord)]
pub struct ChannelId(pub u64);

impl ChannelId {
    /// The numeric value of this identifier.
    pub fn as_u64(self) -> (r: u64)
        ensures
            r == self.0,
    {
        self.0
    }

    /// The identifier with the given numeric value.
    pub fn from_u64(value: u64) -> (r: Self)
        ensures
            r.0 == value,
    {
        ChannelId(value)
    }

    /// The display form `Channel(<n>)`.
    pub fn to_string(&self) -> (s: String)
        ensures
            s@ == channel_id_text(self.0),
    {
        let mut s = "Channel(".to_string();
        let digits = decimal_string(self.0);
        s.append(digits.as_str());
        s.append(")");
        proof {
            reveal_strlit("Channel(");
            reveal_strlit(")");
        }
        s
    }
}

/// The display text of a channel identifier.
pub open spec fn channel_id_text(n: u64) -> Seq<char> {
    "Channel("@ + decimal(n as nat) + ")"@
}

impl From<u64> for ChannelId {
    fn from(value: u64) -> (r: Self) {
        ChannelId(value)
    }
}

impl vstd::std_specs::convert::FromSpecImpl<u64> for ChannelId {
    open spec fn obeys_from_spec() -> bool {
        true
    }

    open spec fn from_spec(value: u64) -> Self {
        ChannelId(value)
    }
}

impl From<ChannelId> for u64 {
    fn from(id: ChannelId) -> (r: u64) {
        id.0
    }
}

impl vstd::std_specs::convert::FromSpecImpl<ChannelId> for u64 {
    open spec fn obeys_from_spec() -> bool {
        true
    }

    open spec fn from_spec(id: ChannelId) -> u64 {
        id.0
    }
}

} // verus!
