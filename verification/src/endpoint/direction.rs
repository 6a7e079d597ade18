//! The direction in which an endpoint uses a protocol.

use vstd::prelude::*;

verus! {

/// Whether an endpoint calls the methods of a protocol, answers them, or
/// both.
#[derive(Debug, Clone, Copy, PartialEq, Eq, Structural, Hash)]
pub enum ProtocolDirection {
    /// The endpoint only calls.
    CallOnly,
    /// The endpoint only answers.
    RespondOnly,
    /// The endpoint calls and answers.
    Bidirectional,
}

/// Whether the direction lets the endpoint call.
pub open spec fn dir_can_call(d: ProtocolDirection) -> bool {
    d is CallOnly || d is Bidirectional
}

/// Whether the direction lets the endpoint answer.
pub open spec fn dir_can_respond(d: ProtocolDirection) -> bool {
    d is RespondOnly || d is Bidirectional
}

/// Whether two endpoints can talk: one calls what the other answers.
pub open spec fn dir_compatible(a: ProtocolDirection, b: ProtocolDirection) -> bool {
    (dir_can_call(a) && dir_can_respond(b)) || (dir_can_respond(a) && dir_can_call(b))
}

/// The description of a direction.
pub open spec fn dir_description(d: ProtocolDirection) -> Seq<char> {
    match d {
        ProtocolDirection::CallOnly => "call only"@,
        ProtocolDirection::RespondOnly => "respond only"@,
        ProtocolDirection::Bidirectional => "bidirectional"@,
    }
}

impl ProtocolDirection {
    /// Whether this direction lets the endpoint call.
    pub fn can_call(&self) -> (r: bool)
        ensures
            r == dir_can_call(*self),
    {
        match self {
            ProtocolDirection::CallOnly | ProtocolDirection::Bidirectional => true,
            _ => false,
        }
    }

    /// Whether this direction lets the endpoint answer.
    pub fn can_respond(&self) -> (r: bool)
        ensures
            r == dir_can_respond(*self),
    {
        match self {
            ProtocolDirection::RespondOnly | ProtocolDirection::Bidirectional => true,
            _ => false,
        }
    }

    /// Whether an endpoint with this direction can talk to one with `other`.
    pub fn is_compatible_with(&self, other: &Self) -> (r: bool)
        ensures
            r == dir_compatible(*self, *other),
    {
        (self.can_call() && other.can_respond()) || (self.can_respond() && other.can_call())
    }

    /// A short description: "call only", "respond only" or "bidirectional".
    pub fn description(&self) -> (r: &'static str)
        ensures
            r@ == dir_description(*self),
    {
        proof {
            reveal_strlit("call only");
            reveal_strlit("respond only");
            reveal_strlit("bidirectional");
        }
        match self {
            ProtocolDirection::CallOnly => "call only",
            ProtocolDirection::RespondOnly => "respond only",
            ProtocolDirection::Bidirectional => "bidirectional",
        }
    }

    /// The display form, the same as the description.
    pub fn to_string(&self) -> (r: String)
        ensures
            r@ == dir_description(*self),
    {
        self.description().to_string()
    }
}

impl Default for ProtocolDirection {
    fn default() -> (r: Self)
        ensures
            r == ProtocolDirection::Bidirectional,
    {
        ProtocolDirection::Bidirectional
    }
}

/// Compatibility does not depend on which side asks.
pub proof fn lemma_compatibility_symmetric(a: ProtocolDirection, b: ProtocolDirection)
    ensures
        dir_compatible(a, b) == dir_compatible(b, a),
{
}

/// A bidirectional endpoint can talk to an endpoint of any direction.
pub proof fn lemma_bidirectional_compatible_with_all(d: ProtocolDirection)
    ensures
        dir_compatible(ProtocolDirection::Bidirectional, d),
{
}

} // verus!
