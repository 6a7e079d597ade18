//! Deciding whether to accept a peer's request to open a channel.

use vstd::prelude::*;
use std::collections::HashMap;
use crate::channel::id::ChannelId;
use crate::channel::protocol::has_feature;
use crate::endpoint::direction::ProtocolDirection;
use crate::endpoint::handshake::{feature_set, features_distinct};
use crate::text::{contains_str, str_eq};

verus! {

/// Decides on a peer's requests to open channels, and hears how its own
/// requests and closed channels fared.
pub trait ChannelNegotiator {
    /// The decision on a request to open `channel_id` for a protocol, with
    /// the reason of a refusal as text.
    spec fn decision(
        &self,
        channel_id: ChannelId,
        protocol_name: Seq<char>,
        protocol_version: u32,
        direction: ProtocolDirection,
        metadata: Map<String, String>,
    ) -> Result<bool, Seq<char>>;

    /// Whether to accept the peer's request to open `channel_id` for a
    /// protocol; an error explains a refusal. The answer is the decision.
    fn on_channel_create_request(
        &self,
        channel_id: ChannelId,
        protocol_name: &str,
        protocol_version: u32,
        direction: ProtocolDirection,
        metadata: &HashMap<String, String>,
    ) -> (r: Result<bool, String>)
        ensures
            decision_view(r) == self.decision(
                channel_id,
                protocol_name@,
                protocol_version,
                direction,
                metadata@,
            ),
    ;

    /// The peer answered our request to open `channel_id`.
    fn on_channel_create_response(&self, channel_id: ChannelId, success: bool, error: Option<String>);

    /// The peer closed `channel_id`.
    fn on_channel_close_notification(&self, channel_id: ChannelId, reason: &str);
}

/// A decision with the reason of a refusal as text.
pub open spec fn decision_view(r: Result<bool, String>) -> Result<bool, Seq<char>> {
    match r {
        Ok(b) => Ok(b),
        Err(m) => Err(m@),
    }
}

/// Accepts requests for the protocols on its allow-list, and no others.
#[derive(Debug)]
pub struct DefaultChannelNegotiator {
    allowed_protocols: Vec<String>,
}

/// The answer to a request to open a channel for `name` when `allowed`
/// are the protocols allowed.
pub open spec fn create_request_outcome(allowed: Set<Seq<char>>, name: Seq<char>) -> Result<
    bool,
    Seq<char>,
> {
    if allowed.contains(name) {
        Ok(true)
    } else {
        Err("Protocol '"@ + name + "' not allowed"@)
    }
}

impl DefaultChannelNegotiator {
    /// The protocols allowed.
    pub closed spec fn spec_allowed(&self) -> Set<Seq<char>> {
        feature_set(self.allowed_protocols@)
    }

    /// The allow-list names each protocol once.
    #[verifier::type_invariant]
    spec fn wf(&self) -> bool {
        features_distinct(self.allowed_protocols@)
    }

    /// A negotiator that allows nothing.
    pub fn new() -> (n: Self)
        ensures
            n.spec_allowed() == Set::<Seq<char>>::empty(),
    {
        let n = DefaultChannelNegotiator { allowed_protocols: Vec::new() };
        proof {
            assert(n.spec_allowed() =~= Set::<Seq<char>>::empty());
        }
        n
    }

    /// Allows a protocol.
    pub fn allow_protocol(&mut self, protocol_name: &str)
        ensures
            final(self).spec_allowed() == old(self).spec_allowed().insert(protocol_name@),
    {
        proof {
            use_type_invariant(&*self);
        }
        if !contains_str(&self.allowed_protocols, protocol_name) {
            let mut allowed: Vec<String> = Vec::new();
            std::mem::swap(&mut allowed, &mut self.allowed_protocols);
            let ghost before = allowed@;
            allowed.push(protocol_name.to_string());
            proof {
                let after = allowed@;
                assert forall|f: Seq<char>| feature_set(after).contains(f) <==> feature_set(before).insert(protocol_name@).contains(f) by {
                    if feature_set(after).contains(f) {
                        let k = choose|k: int| 0 <= k < after.len() && #[trigger] after[k]@ == f;
                        if k < before.len() {
                            assert(before[k]@ == f);
                        }
                    }
                    if feature_set(before).contains(f) {
                        let k = choose|k: int| 0 <= k < before.len() && #[trigger] before[k]@ == f;
                        assert(after[k]@ == f);
                    }
                    if f == protocol_name@ {
                        assert(after[before.len() as int]@ == f);
                    }
                }
                assert(feature_set(after) =~= feature_set(before).insert(protocol_name@));
                assert forall|i: int, j: int| 0 <= i < j < after.len() implies after[i]@ != after[j]@ by {
                    if j == before.len() {
                        assert(after[i] == before[i]);
                    } else {
                        assert(after[i] == before[i] && after[j] == before[j]);
                    }
                }
            }
            self.allowed_protocols = allowed;
        } else {
            proof {
                assert(self.spec_allowed() =~= self.spec_allowed().insert(protocol_name@));
            }
        }
    }

    /// No longer allows a protocol.
    pub fn disallow_protocol(&mut self, protocol_name: &str)
        ensures
            final(self).spec_allowed() == old(self).spec_allowed().remove(protocol_name@),
    {
        proof {
            use_type_invariant(&*self);
        }
        let ghost before = self.allowed_protocols@;
        let mut kept: Vec<String> = Vec::new();
        let mut i: usize = 0;
        while i < self.allowed_protocols.len()
            invariant
                i <= before.len(),
                self.allowed_protocols@ == before,
                features_distinct(before),
                feature_set(kept@) == feature_set(before.take(i as int)).remove(protocol_name@),
                forall|k: int| 0 <= k < kept@.len() ==> exists|j: int| 0 <= j < i && #[trigger] kept@[k]@ == before[j]@,
                features_distinct(kept@),
            decreases before.len() - i,
        {
            let ghost prev = kept@;
            let drop = str_eq(self.allowed_protocols[i].as_str(), protocol_name);
            if !drop {
                kept.push(self.allowed_protocols[i].clone());
            }
            proof {
                let ta = before.take(i as int);
                let tb = before.take(i + 1);
                assert forall|f: Seq<char>| feature_set(tb).contains(f) <==> feature_set(ta).contains(f) || f == before[i as int]@ by {
                    if feature_set(tb).contains(f) {
                        let j = choose|j: int| 0 <= j < tb.len() && #[trigger] tb[j]@ == f;
                        if j < i {
                            assert(ta[j]@ == f);
                        }
                    }
                    if feature_set(ta).contains(f) {
                        let j = choose|j: int| 0 <= j < ta.len() && #[trigger] ta[j]@ == f;
                        assert(tb[j]@ == f);
                    }
                    if f == before[i as int]@ {
                        assert(tb[i as int]@ == f);
                    }
                }
                assert forall|f: Seq<char>| feature_set(kept@).contains(f) <==> feature_set(tb).remove(protocol_name@).contains(f) by {
                    if feature_set(kept@).contains(f) {
                        let k = choose|k: int| 0 <= k < kept@.len() && #[trigger] kept@[k]@ == f;
                        if k < prev.len() {
                            assert(prev[k]@ == f);
                            assert(feature_set(prev).contains(f));
                        } else {
                            assert(f == before[i as int]@);
                        }
                    }
                    if feature_set(tb).remove(protocol_name@).contains(f) {
                        if feature_set(ta).contains(f) {
                            assert(feature_set(ta).remove(protocol_name@).contains(f));
                            assert(feature_set(prev).contains(f));
                            let k = choose|k: int| 0 <= k < prev.len() && #[trigger] prev[k]@ == f;
                            assert(kept@[k] == prev[k]);
                            assert(has_feature(kept@, f));
                        } else {
                            assert(f == before[i as int]@);
                            assert(kept@[kept@.len() - 1]@ == f);
                            assert(has_feature(kept@, f));
                        }
                    }
                }
                assert(feature_set(kept@) =~= feature_set(tb).remove(protocol_name@));
                assert forall|k: int| 0 <= k < kept@.len() implies exists|j: int| 0 <= j < i + 1 && #[trigger] kept@[k]@ == before[j]@ by {
                    if k < prev.len() {
                        assert(prev[k] == kept@[k]);
                    } else {
                        assert(kept@[k]@ == before[i as int]@);
                    }
                }
                assert forall|a: int, b: int| 0 <= a < b < kept@.len() implies kept@[a]@ != kept@[b]@ by {
                    if b < prev.len() {
                        assert(kept@[a] == prev[a] && kept@[b] == prev[b]);
                    } else {
                        assert(kept@[a] == prev[a]);
                        let j = choose|j: int| 0 <= j < i && #[trigger] prev[a]@ == before[j]@;
                        assert(kept@[b]@ == before[i as int]@);
                    }
                }
            }
            i = i + 1;
        }
        proof {
            assert(before.take(before.len() as int) =~= before);
        }
        self.allowed_protocols = kept;
    }

    /// Whether a protocol is allowed.
    pub fn is_protocol_allowed(&self, protocol_name: &str) -> (r: bool)
        ensures
            r == self.spec_allowed().contains(protocol_name@),
    {
        contains_str(&self.allowed_protocols, protocol_name)
    }

    /// The protocols allowed, each once.
    pub fn allowed_protocols(&self) -> (r: Vec<String>)
        ensures
            feature_set(r@) == self.spec_allowed(),
            features_distinct(r@),
    {
        proof {
            use_type_invariant(self);
        }
        self.allowed_protocols.clone()
    }
}

impl Default for DefaultChannelNegotiator {
    fn default() -> (n: Self)
        ensures
            n.spec_allowed() == Set::<Seq<char>>::empty(),
    {
        Self::new()
    }
}

impl ChannelNegotiator for DefaultChannelNegotiator {
    /// Accepts exactly the protocols on the allow-list.
    open spec fn decision(
        &self,
        channel_id: ChannelId,
        protocol_name: Seq<char>,
        protocol_version: u32,
        direction: ProtocolDirection,
        metadata: Map<String, String>,
    ) -> Result<bool, Seq<char>> {
        create_request_outcome(self.spec_allowed(), protocol_name)
    }

    /// Accepts exactly the protocols on the allow-list.
    fn on_channel_create_request(
        &self,
        channel_id: ChannelId,
        protocol_name: &str,
        protocol_version: u32,
        direction: ProtocolDirection,
        metadata: &HashMap<String, String>,
    ) -> (r: Result<bool, String>)
    {
        proof {
            reveal_strlit("Protocol '");
            reveal_strlit("' not allowed");
        }
        if self.is_protocol_allowed(protocol_name) {
            Ok(true)
        } else {
            let mut m = "Protocol '".to_string();
            m.append(protocol_name);
            m.append("' not allowed");
            Err(m)
        }
    }

    /// Nothing to decide.
    fn on_channel_create_response(&self, channel_id: ChannelId, success: bool, error: Option<String>) {
    }

    /// Nothing to decide.
    fn on_channel_close_notification(&self, channel_id: ChannelId, reason: &str) {
    }
}

/// Once a protocol is allowed, requests for it are accepted.
pub proof fn lemma_allowed_is_accepted(allowed: Set<Seq<char>>, name: Seq<char>)
    ensures
        create_request_outcome(allowed.insert(name), name) == Ok::<bool, Seq<char>>(true),
{
}

/// Once a protocol is disallowed, requests for it are refused, and the
/// answer to requests for every other protocol stays as it was.
pub proof fn lemma_disallowed_is_refused(allowed: Set<Seq<char>>, name: Seq<char>, other: Seq<char>)
    ensures
        create_request_outcome(allowed.remove(name), name) is Err,
        other != name ==> create_request_outcome(allowed.remove(name), other)
            == create_request_outcome(allowed, other),
{
}

} // verus!
