//! The handshake: what each side offers, and how the protocols both sides
//! can use are worked out from the two offers.

use vstd::prelude::*;
use crate::endpoint::direction::{
    ProtocolDirection, dir_can_call, dir_can_respond, dir_compatible, dir_description,
};
use crate::channel::protocol::has_feature;
use crate::text::{contains_str, join, texts, join_strings, u32_list_text, u32_list_string};

verus! {

/// Messages exchanged while two endpoints shake hands.
#[derive(Debug, Clone)]
pub enum HandshakeMessage {
    /// Opens the handshake: who we are, how we serialize, what we offer.
    Hello {
        endpoint_id: Option<String>,
        serializer: String,
        protocols: Vec<ProtocolCapability>,
        bdrpc_version: String,
    },
    /// Confirms the protocols negotiated.
    Ack { negotiated: Vec<NegotiatedProtocol> },
    /// The handshake failed.
    Error { message: String },
}

/// What an endpoint offers for one protocol.
#[derive(Debug, Clone)]
pub struct ProtocolCapability {
    /// The protocol's name.
    pub protocol_name: String,
    /// The versions supported.
    pub supported_versions: Vec<u32>,
    /// The optional features supported, each once.
    pub features: Vec<String>,
    /// Whether the endpoint calls, answers or both.
    pub direction: ProtocolDirection,
}

/// A protocol that both sides agreed on.
#[derive(Debug, Clone)]
pub struct NegotiatedProtocol {
    /// The protocol's name.
    pub name: String,
    /// The version both sides use.
    pub version: u32,
    /// The features both sides support, each once.
    pub features: Vec<String>,
    /// Whether we may call the peer.
    pub we_can_call: bool,
    /// Whether we may answer the peer.
    pub we_can_respond: bool,
}

/// The features in a list, as a set.
pub open spec fn feature_set(v: Seq<String>) -> Set<Seq<char>> {
    Set::new(|f: Seq<char>| has_feature(v, f))
}

/// No feature occurs twice.
pub open spec fn features_distinct(v: Seq<String>) -> bool {
    forall|i: int, j: int| 0 <= i < j < v.len() ==> v[i]@ != v[j]@
}

/// A capability as plain values.
pub struct CapModel {
    pub name: Seq<char>,
    pub versions: Seq<u32>,
    pub features: Set<Seq<char>>,
    pub direction: ProtocolDirection,
}

/// A negotiated protocol as plain values.
pub struct NegModel {
    pub name: Seq<char>,
    pub version: u32,
    pub features: Set<Seq<char>>,
    pub we_can_call: bool,
    pub we_can_respond: bool,
}

/// The plain values of a capability.
pub open spec fn cap_view(c: ProtocolCapability) -> CapModel {
    CapModel {
        name: c.protocol_name@,
        versions: c.supported_versions@,
        features: feature_set(c.features@),
        direction: c.direction,
    }
}

/// The plain values of a negotiated protocol.
pub open spec fn neg_view(n: NegotiatedProtocol) -> NegModel {
    NegModel {
        name: n.name@,
        version: n.version,
        features: feature_set(n.features@),
        we_can_call: n.we_can_call,
        we_can_respond: n.we_can_respond,
    }
}

/// The plain values of a list of capabilities.
pub open spec fn caps_view(v: Seq<ProtocolCapability>) -> Seq<CapModel> {
    v.map_values(|c: ProtocolCapability| cap_view(c))
}

/// The plain values of a list of negotiated protocols.
pub open spec fn negs_view(v: Seq<NegotiatedProtocol>) -> Seq<NegModel> {
    v.map_values(|n: NegotiatedProtocol| neg_view(n))
}

/// The highest version in `ours` that `peers` supports too, if any.
pub open spec fn max_common(ours: Seq<u32>, peers: Seq<u32>) -> Option<u32>
    decreases ours.len(),
{
    if ours.len() == 0 {
        None
    } else {
        let rest = max_common(ours.drop_last(), peers);
        let v = ours.last();
        if peers.contains(v) {
            match rest {
                None => Some(v),
                Some(r) => Some(if v > r { v } else { r }),
            }
        } else {
            rest
        }
    }
}

/// The peer's offer for a protocol name: the last one with that name.
pub open spec fn lookup(peers: Seq<CapModel>, name: Seq<char>) -> Option<CapModel>
    decreases peers.len(),
{
    if peers.len() == 0 {
        None
    } else if peers.last().name == name {
        Some(peers.last())
    } else {
        lookup(peers.drop_last(), name)
    }
}

/// What two offers for the same protocol agree on, if anything: the
/// directions must fit and a version must be common; the features are
/// those both support.
pub open spec fn negotiate_pair(our: CapModel, peer: CapModel) -> Option<NegModel> {
    if !dir_compatible(our.direction, peer.direction) {
        None
    } else {
        match max_common(our.versions, peer.versions) {
            None => None,
            Some(v) => Some(
                NegModel {
                    name: our.name,
                    version: v,
                    features: our.features.intersect(peer.features),
                    we_can_call: dir_can_call(our.direction) && dir_can_respond(peer.direction),
                    we_can_respond: dir_can_respond(our.direction) && dir_can_call(
                        peer.direction,
                    ),
                },
            ),
        }
    }
}

/// What our offer for one protocol gives against the peer's offers.
pub open spec fn negotiate_cap(our: CapModel, peers: Seq<CapModel>) -> Option<NegModel> {
    match lookup(peers, our.name) {
        None => None,
        Some(p) => negotiate_pair(our, p),
    }
}

/// The protocols negotiated, in the order of our offers.
pub open spec fn negotiate_spec(ours: Seq<CapModel>, peers: Seq<CapModel>) -> Seq<NegModel>
    decreases ours.len(),
{
    if ours.len() == 0 {
        Seq::empty()
    } else {
        let prev = negotiate_spec(ours.drop_last(), peers);
        match negotiate_cap(ours.last(), peers) {
            None => prev,
            Some(n) => prev.push(n),
        }
    }
}

/// Whether a version list holds `v`.
fn versions_contain(v: &Vec<u32>, x: u32) -> (r: bool)
    ensures
        r == v@.contains(x),
{
    let mut i: usize = 0;
    while i < v.len()
        invariant
            i <= v@.len(),
            forall|k: int| 0 <= k < i ==> v@[k] != x,
        decreases v@.len() - i,
    {
        if v[i] == x {
            return true;
        }
        i = i + 1;
    }
    false
}

/// The highest version that both offers support, if any.
pub fn negotiate_version(our_cap: &ProtocolCapability, peer_cap: &ProtocolCapability) -> (r:
    Option<u32>)
    ensures
        r == max_common(our_cap.supported_versions@, peer_cap.supported_versions@),
{
    let ours = &our_cap.supported_versions;
    let peers = &peer_cap.supported_versions;
    let mut best: Option<u32> = None;
    let mut i: usize = 0;
    while i < ours.len()
        invariant
            i <= ours@.len(),
            best == max_common(ours@.take(i as int), peers@),
        decreases ours@.len() - i,
    {
        let v = ours[i];
        proof {
            assert(ours@.take(i + 1).drop_last() =~= ours@.take(i as int));
            assert(ours@.take(i + 1).last() == v);
        }
        if versions_contain(peers, v) {
            best = match best {
                None => Some(v),
                Some(b) => Some(if v > b { v } else { b }),
            };
        }
        i = i + 1;
    }
    proof {
        assert(ours@.take(ours@.len() as int) =~= ours@);
    }
    best
}

/// The highest common version is common to both sides and at least as
/// high as every version both sides support; there is none exactly when
/// the two lists share no version.
pub proof fn lemma_max_common_is_greatest(ours: Seq<u32>, peers: Seq<u32>)
    ensures
        max_common(ours, peers) is None <==> forall|w: u32| ours.contains(w) ==> !peers.contains(
            w,
        ),
        max_common(ours, peers) matches Some(v) ==> ours.contains(v) && peers.contains(v) && (
        forall|w: u32| ours.contains(w) && peers.contains(w) ==> w <= v),
    decreases ours.len(),
{
    if ours.len() > 0 {
        let rest = ours.drop_last();
        lemma_max_common_is_greatest(rest, peers);
        assert(ours =~= rest.push(ours.last()));
        assert forall|w: u32| ours.contains(w) implies rest.contains(w) || w == ours.last() by {
            let k = choose|k: int| 0 <= k < ours.len() && ours[k] == w;
            if k < ours.len() - 1 {
                assert(rest[k] == w);
            }
        }
        assert forall|w: u32| rest.contains(w) implies ours.contains(w) by {
            let k = choose|k: int| 0 <= k < rest.len() && rest[k] == w;
            assert(ours[k] == w);
        }
        assert(ours[ours.len() - 1] == ours.last());
    }
}

/// The features of `a` that `b` has too, in the order of `a`.
pub fn intersect_features(a: &Vec<String>, b: &Vec<String>) -> (r: Vec<String>)
    ensures
        feature_set(r@) == feature_set(a@).intersect(feature_set(b@)),
        features_distinct(a@) ==> features_distinct(r@),
{
    let mut r: Vec<String> = Vec::new();
    let mut i: usize = 0;
    while i < a.len()
        invariant
            i <= a@.len(),
            feature_set(r@) == feature_set(a@.take(i as int)).intersect(feature_set(b@)),
            forall|k: int| 0 <= k < r@.len() ==> exists|j: int| 0 <= j < i && #[trigger] r@[k]@ == a@[j]@,
            features_distinct(a@) ==> forall|k: int, l: int| 0 <= k < l < r@.len() ==> r@[k]@ != r@[l]@,
            features_distinct(a@) ==> forall|k: int| 0 <= k < r@.len() ==> exists|j: int| 0 <= j < i && #[trigger] r@[k]@ == a@[j]@,
        decreases a@.len() - i,
    {
        let keep = contains_str(b, a[i].as_str());
        let ghost before = r@;
        if keep {
            r.push(a[i].clone());
        }
        proof {
            let ta = a@.take(i as int);
            let tb = a@.take(i + 1);
            assert forall|f: Seq<char>| feature_set(tb).contains(f) <==> feature_set(ta).contains(f) || f == a@[i as int]@ by {
                if feature_set(tb).contains(f) {
                    let j = choose|j: int| 0 <= j < tb.len() && #[trigger] tb[j]@ == f;
                    if j < i {
                        assert(ta[j]@ == f);
                    }
                }
                if feature_set(ta).contains(f) {
                    let j = choose|j: int| 0 <= j < ta.len() && #[trigger] ta[j]@ == f;
                    assert(tb[j]@ == f);
                }
                if f == a@[i as int]@ {
                    assert(tb[i as int]@ == f);
                }
            }
            assert(keep == has_feature(b@, a@[i as int]@));
            assert forall|f: Seq<char>| feature_set(r@).contains(f) <==> feature_set(tb).intersect(feature_set(b@)).contains(f) by {
                if feature_set(r@).contains(f) {
                    let k = choose|k: int| 0 <= k < r@.len() && #[trigger] r@[k]@ == f;
                    if k < before.len() {
                        assert(before[k]@ == f);
                        assert(feature_set(before).contains(f));
                    } else {
                        assert(f == a@[i as int]@);
                    }
                }
                if feature_set(tb).intersect(feature_set(b@)).contains(f) {
                    if feature_set(ta).contains(f) {
                        assert(feature_set(ta).intersect(feature_set(b@)).contains(f));
                        assert(feature_set(before).contains(f));
                        assert(has_feature(before, f));
                        let k = choose|k: int| 0 <= k < before.len() && #[trigger] before[k]@ == f;
                        assert(r@[k] == before[k]);
                        assert(has_feature(r@, f));
                    } else {
                        assert(f == a@[i as int]@);
                        assert(has_feature(b@, f));
                        assert(r@[r@.len() - 1]@ == f);
                        assert(has_feature(r@, f));
                    }
                }
            }
            assert(feature_set(r@) =~= feature_set(tb).intersect(feature_set(b@)));
            assert forall|k: int| 0 <= k < r@.len() implies exists|j: int| 0 <= j < i + 1 && #[trigger] r@[k]@ == a@[j]@ by {
                if k < before.len() {
                    assert(before[k] == r@[k]);
                } else {
                    assert(r@[k]@ == a@[i as int]@);
                }
            }
        }
        i = i + 1;
    }
    proof {
        assert(a@.take(a@.len() as int) =~= a@);
    }
    r
}

/// Finds the peer's offer for a protocol name: the last one with that name.
fn find_peer(peers: &Vec<ProtocolCapability>, name: &str) -> (r: Option<usize>)
    ensures
        match r {
            None => lookup(caps_view(peers@), name@) is None,
            Some(k) => k < peers@.len() && lookup(caps_view(peers@), name@) == Some(
                cap_view(peers@[k as int]),
            ),
        },
{
    let ghost pm = caps_view(peers@);
    let mut i: usize = peers.len();
    proof {
        assert(pm.take(peers@.len() as int) =~= pm);
    }
    while i > 0
        invariant
            i <= peers@.len(),
            pm == caps_view(peers@),
            lookup(pm, name@) == lookup(pm.take(i as int), name@),
        decreases i,
    {
        proof {
            assert(pm.take(i as int).drop_last() =~= pm.take(i - 1));
            assert(pm.take(i as int).last() == pm[i - 1]);
        }
        if crate::text::str_eq(peers[i - 1].protocol_name.as_str(), name) {
            return Some(i - 1);
        }
        i = i - 1;
    }
    proof {
        assert(pm.take(0) =~= Seq::<CapModel>::empty());
    }
    None
}

/// The outcome of checking our offer against the peer's offer for the same
/// protocol.
enum PairOutcome {
    Incompatible,
    NoVersion,
    Agreed(NegotiatedProtocol),
}

/// Checks our offer against the peer's offer for the same protocol.
fn negotiate_with(our: &ProtocolCapability, peer: &ProtocolCapability) -> (r: PairOutcome)
    ensures
        match r {
            PairOutcome::Incompatible => !dir_compatible(our.direction, peer.direction),
            PairOutcome::NoVersion => dir_compatible(our.direction, peer.direction) && max_common(
                our.supported_versions@,
                peer.supported_versions@,
            ) is None,
            PairOutcome::Agreed(n) => negotiate_pair(cap_view(*our), cap_view(*peer)) == Some(
                neg_view(n),
            ) && (features_distinct(our.features@) ==> features_distinct(n.features@)),
        },
        r is Agreed <==> negotiate_pair(cap_view(*our), cap_view(*peer)) is Some,
{
    if !our.direction.is_compatible_with(&peer.direction) {
        return PairOutcome::Incompatible;
    }
    match negotiate_version(our, peer) {
        None => PairOutcome::NoVersion,
        Some(version) => {
            let features = intersect_features(&our.features, &peer.features);
            let we_can_call = our.direction.can_call() && peer.direction.can_respond();
            let we_can_respond = our.direction.can_respond() && peer.direction.can_call();
            PairOutcome::Agreed(
                NegotiatedProtocol {
                    name: our.protocol_name.clone(),
                    version,
                    features,
                    we_can_call,
                    we_can_respond,
                },
            )
        },
    }
}

/// The protocols that both sides can use, in the order of our offers: for
/// each of our offers, the peer's offer with the same name (the last one
/// if it made several) must have a fitting direction and a common version.
pub fn negotiate_protocols(
    our_capabilities: &Vec<ProtocolCapability>,
    peer_capabilities: &Vec<ProtocolCapability>,
) -> (r: Vec<NegotiatedProtocol>)
    ensures
        negs_view(r@) == negotiate_spec(caps_view(our_capabilities@), caps_view(peer_capabilities@)),
{
    let ghost om = caps_view(our_capabilities@);
    let ghost pm = caps_view(peer_capabilities@);
    let mut negotiated: Vec<NegotiatedProtocol> = Vec::new();
    let mut i: usize = 0;
    while i < our_capabilities.len()
        invariant
            i <= our_capabilities@.len(),
            om == caps_view(our_capabilities@),
            pm == caps_view(peer_capabilities@),
            negs_view(negotiated@) == negotiate_spec(om.take(i as int), pm),
        decreases our_capabilities@.len() - i,
    {
        let our = &our_capabilities[i];
        proof {
            assert(om.take(i + 1).drop_last() =~= om.take(i as int));
            assert(om.take(i + 1).last() == cap_view(*our));
        }
        let ghost before = negotiated@;
        match find_peer(peer_capabilities, our.protocol_name.as_str()) {
            None => {},
            Some(k) => {
                match negotiate_with(our, &peer_capabilities[k]) {
                    PairOutcome::Agreed(n) => {
                        negotiated.push(n);
                        proof {
                            assert(negs_view(negotiated@) =~= negs_view(before).push(neg_view(n)));
                        }
                    },
                    _ => {},
                }
            },
        }
        i = i + 1;
    }
    proof {
        assert(om.take(our_capabilities@.len() as int) =~= om);
    }
    negotiated
}

impl ProtocolCapability {
    /// A copy of this offer, field by field.
    pub fn duplicate(&self) -> (c: Self)
        ensures
            c.protocol_name@ == self.protocol_name@,
            c.supported_versions@ == self.supported_versions@,
            c.features@ == self.features@,
            c.direction == self.direction,
            cap_view(c) == cap_view(*self),
    {
        let c = ProtocolCapability {
            protocol_name: self.protocol_name.clone(),
            supported_versions: self.supported_versions.clone(),
            features: self.features.clone(),
            direction: self.direction,
        };
        proof {
            assert(c.supported_versions@ =~= self.supported_versions@);
            assert(c.features@ =~= self.features@);
        }
        c
    }

    /// An offer for a protocol, with no optional features.
    pub fn new(protocol_name: &str, supported_versions: Vec<u32>, direction: ProtocolDirection) -> (c:
        Self)
        ensures
            c.protocol_name@ == protocol_name@,
            c.supported_versions == supported_versions,
            c.features@.len() == 0,
            c.direction == direction,
    {
        ProtocolCapability {
            protocol_name: protocol_name.to_string(),
            supported_versions,
            features: Vec::new(),
            direction,
        }
    }

    /// Adds an optional feature; a feature already offered is not added
    /// twice.
    pub fn with_feature(self, feature: &str) -> (c: Self)
        ensures
            c.protocol_name == self.protocol_name,
            c.supported_versions == self.supported_versions,
            c.direction == self.direction,
            feature_set(c.features@) == feature_set(self.features@).insert(feature@),
            has_feature(self.features@, feature@) ==> c.features@ == self.features@,
            !has_feature(self.features@, feature@) ==> c.features@.len() == self.features@.len() + 1
                && c.features@.drop_last() == self.features@ && c.features@.last()@ == feature@,
            features_distinct(self.features@) ==> features_distinct(c.features@),
    {
        let mut c = self;
        if !contains_str(&c.features, feature) {
            let ghost before = c.features@;
            c.features.push(feature.to_string());
            proof {
                assert(c.features@.drop_last() =~= before);
                assert forall|f: Seq<char>| feature_set(c.features@).contains(f) <==> feature_set(before).insert(feature@).contains(f) by {
                    if feature_set(c.features@).contains(f) {
                        let k = choose|k: int| 0 <= k < c.features@.len() && #[trigger] c.features@[k]@ == f;
                        if k < before.len() {
                            assert(before[k]@ == f);
                        }
                    }
                    if feature_set(before).contains(f) {
                        let k = choose|k: int| 0 <= k < before.len() && #[trigger] before[k]@ == f;
                        assert(c.features@[k]@ == f);
                    }
                    if f == feature@ {
                        assert(c.features@[before.len() as int]@ == f);
                    }
                }
                assert(feature_set(c.features@) =~= feature_set(before).insert(feature@));
            }
        } else {
            proof {
                assert(feature_set(c.features@) =~= feature_set(c.features@).insert(feature@));
            }
        }
        c
    }

    /// Whether `version` is among the supported versions.
    pub fn supports_version(&self, version: u32) -> (r: bool)
        ensures
            r == self.supported_versions@.contains(version),
    {
        versions_contain(&self.supported_versions, version)
    }

    /// Whether the optional feature is offered.
    pub fn has_feature(&self, feature: &str) -> (r: bool)
        ensures
            r == has_feature(self.features@, feature@),
    {
        contains_str(&self.features, feature)
    }
}

impl NegotiatedProtocol {
    /// An agreement on `name` at `version`, with no features and neither
    /// calls nor answers allowed yet.
    pub fn new(name: &str, version: u32) -> (n: Self)
        ensures
            n.name@ == name@,
            n.version == version,
            n.features@.len() == 0,
            !n.we_can_call,
            !n.we_can_respond,
    {
        NegotiatedProtocol {
            name: name.to_string(),
            version,
            features: Vec::new(),
            we_can_call: false,
            we_can_respond: false,
        }
    }

    /// Whether the protocol can be used at all: we may call or answer.
    pub fn is_usable(&self) -> (r: bool)
        ensures
            r == (self.we_can_call || self.we_can_respond),
    {
        self.we_can_call || self.we_can_respond
    }

    /// Whether we may both call and answer.
    pub fn is_bidirectional(&self) -> (r: bool)
        ensures
            r == (self.we_can_call && self.we_can_respond),
    {
        self.we_can_call && self.we_can_respond
    }

    /// Whether the feature was agreed on.
    pub fn has_feature(&self, feature: &str) -> (r: bool)
        ensures
            r == has_feature(self.features@, feature@),
    {
        contains_str(&self.features, feature)
    }
}

/// Why our offer for one protocol fails in strict negotiation, if it does:
/// the peer does not offer it, the directions do not fit, or no version is
/// common.
pub open spec fn strict_error(our: CapModel, peers: Seq<CapModel>) -> Option<Seq<char>> {
    match lookup(peers, our.name) {
        None => Some("Protocol '"@ + our.name + "' not found in peer capabilities"@),
        Some(p) => if !dir_compatible(our.direction, p.direction) {
            Some(
                "Incompatible directions for protocol '"@ + our.name + "': we are "@
                    + dir_description(our.direction) + ", peer is "@ + dir_description(
                    p.direction,
                ),
            )
        } else if max_common(our.versions, p.versions) is None {
            Some(
                "No common version for protocol '"@ + our.name + "': we support "@
                    + u32_list_text(our.versions) + ", peer supports "@ + u32_list_text(
                    p.versions,
                ),
            )
        } else {
            None
        },
    }
}

/// The failures of strict negotiation, in the order of our offers.
pub open spec fn strict_errors(ours: Seq<CapModel>, peers: Seq<CapModel>) -> Seq<Seq<char>>
    decreases ours.len(),
{
    if ours.len() == 0 {
        Seq::empty()
    } else {
        let prev = strict_errors(ours.drop_last(), peers);
        match strict_error(ours.last(), peers) {
            None => prev,
            Some(e) => prev.push(e),
        }
    }
}

/// Every one of our offers is agreed on by the peer.
pub open spec fn all_agreed(ours: Seq<CapModel>, peers: Seq<CapModel>) -> bool {
    forall|k: int| 0 <= k < ours.len() ==> #[trigger] negotiate_cap(ours[k], peers) is Some
}

/// An offer fails the strict negotiation exactly when it is not agreed on.
proof fn lemma_strict_error_iff_not_agreed(our: CapModel, peers: Seq<CapModel>)
    ensures
        strict_error(our, peers) is None <==> negotiate_cap(our, peers) is Some,
{
}

/// Strict negotiation succeeds exactly when we offered something and every
/// offer is agreed on; then there is one negotiated protocol per offer.
pub proof fn lemma_strict_succeeds_when_all_agreed(ours: Seq<CapModel>, peers: Seq<CapModel>)
    ensures
        strict_errors(ours, peers).len() == 0 <==> all_agreed(ours, peers),
        all_agreed(ours, peers) ==> negotiate_spec(ours, peers).len() == ours.len(),
        (strict_errors(ours, peers).len() == 0 && negotiate_spec(ours, peers).len() > 0) <==> (
        ours.len() > 0 && all_agreed(ours, peers)),
    decreases ours.len(),
{
    if ours.len() > 0 {
        let rest = ours.drop_last();
        lemma_strict_succeeds_when_all_agreed(rest, peers);
        lemma_strict_error_iff_not_agreed(ours.last(), peers);
        assert forall|k: int| 0 <= k < rest.len() implies rest[k] == ours[k] by {}
        if all_agreed(ours, peers) {
            assert forall|k: int| 0 <= k < rest.len() implies #[trigger] negotiate_cap(
                rest[k],
                peers,
            ) is Some by {
                assert(negotiate_cap(ours[k], peers) is Some);
            }
            assert(negotiate_cap(ours[ours.len() - 1], peers) is Some);
        }
        if all_agreed(rest, peers) && negotiate_cap(ours.last(), peers) is Some {
            assert forall|k: int| 0 <= k < ours.len() implies #[trigger] negotiate_cap(
                ours[k],
                peers,
            ) is Some by {
                if k < rest.len() {
                    assert(negotiate_cap(rest[k], peers) is Some);
                }
            }
        }
    }
}

/// Like `negotiate_protocols`, but every one of our offers must be agreed
/// on. Otherwise the error lists every failure, separated by "; "; when
/// nothing was offered, the error says that no protocol could be
/// negotiated.
pub fn negotiate_protocols_strict(
    our_capabilities: &Vec<ProtocolCapability>,
    peer_capabilities: &Vec<ProtocolCapability>,
) -> (r: Result<Vec<NegotiatedProtocol>, String>)
    ensures
        ({
            let om = caps_view(our_capabilities@);
            let pm = caps_view(peer_capabilities@);
            let errs = strict_errors(om, pm);
            let negs = negotiate_spec(om, pm);
            &&& r is Ok <==> errs.len() == 0 && negs.len() > 0
            &&& r matches Ok(v) ==> negs_view(v@) == negs
            &&& r matches Err(e) ==> e@ == (if errs.len() > 0 {
                join(errs, "; "@)
            } else {
                "No protocols could be negotiated"@
            })
        }),
{
    proof {
        reveal_strlit("Protocol '");
        reveal_strlit("' not found in peer capabilities");
        reveal_strlit("Incompatible directions for protocol '");
        reveal_strlit("': we are ");
        reveal_strlit(", peer is ");
        reveal_strlit("No common version for protocol '");
        reveal_strlit("': we support ");
        reveal_strlit(", peer supports ");
        reveal_strlit("; ");
        reveal_strlit("No protocols could be negotiated");
    }
    let ghost om = caps_view(our_capabilities@);
    let ghost pm = caps_view(peer_capabilities@);
    let mut negotiated: Vec<NegotiatedProtocol> = Vec::new();
    let mut errors: Vec<String> = Vec::new();
    let mut i: usize = 0;
    while i < our_capabilities.len()
        invariant
            i <= our_capabilities@.len(),
            om == caps_view(our_capabilities@),
            pm == caps_view(peer_capabilities@),
            negs_view(negotiated@) == negotiate_spec(om.take(i as int), pm),
            texts(errors@) == strict_errors(om.take(i as int), pm),
        decreases our_capabilities@.len() - i,
    {
        let our = &our_capabilities[i];
        proof {
            assert(om.take(i + 1).drop_last() =~= om.take(i as int));
            assert(om.take(i + 1).last() == cap_view(*our));
        }
        let ghost before_n = negotiated@;
        let ghost before_e = errors@;
        match find_peer(peer_capabilities, our.protocol_name.as_str()) {
            None => {
                let mut m = "Protocol '".to_string();
                m.append(our.protocol_name.as_str());
                m.append("' not found in peer capabilities");
                errors.push(m);
                proof {
                    assert(texts(errors@) =~= texts(before_e).push(errors@.last()@));
                }
            },
            Some(k) => {
                let peer = &peer_capabilities[k];
                match negotiate_with(our, peer) {
                    PairOutcome::Incompatible => {
                        let mut m = "Incompatible directions for protocol '".to_string();
                        m.append(our.protocol_name.as_str());
                        m.append("': we are ");
                        m.append(our.direction.description());
                        m.append(", peer is ");
                        m.append(peer.direction.description());
                        errors.push(m);
                        proof {
                            assert(texts(errors@) =~= texts(before_e).push(errors@.last()@));
                        }
                    },
                    PairOutcome::NoVersion => {
                        let mut m = "No common version for protocol '".to_string();
                        m.append(our.protocol_name.as_str());
                        m.append("': we support ");
                        m.append(u32_list_string(&our.supported_versions).as_str());
                        m.append(", peer supports ");
                        m.append(u32_list_string(&peer.supported_versions).as_str());
                        errors.push(m);
                        proof {
                            assert(texts(errors@) =~= texts(before_e).push(errors@.last()@));
                        }
                    },
                    PairOutcome::Agreed(n) => {
                        negotiated.push(n);
                        proof {
                            assert(negs_view(negotiated@) =~= negs_view(before_n).push(neg_view(n)));
                        }
                    },
                }
            },
        }
        i = i + 1;
    }
    proof {
        assert(om.take(our_capabilities@.len() as int) =~= om);
    }
    if errors.len() > 0 {
        Err(join_strings(&errors, "; "))
    } else if negotiated.len() == 0 {
        Err("No protocols could be negotiated".to_string())
    } else {
        Ok(negotiated)
    }
}

/// Whether the peer's offer for `name` supports `version`.
pub open spec fn peer_supports(peers: Seq<CapModel>, name: Seq<char>, version: u32) -> bool {
    match lookup(peers, name) {
        Some(p) => p.versions.contains(version),
        None => false,
    }
}

/// Every protocol that negotiation agrees on can be used: we may call it,
/// answer it, or both; its version is one both sides support; and our
/// offer and the peer's both name it.
pub proof fn lemma_negotiated_usable(ours: Seq<CapModel>, peers: Seq<CapModel>, k: int)
    requires
        0 <= k < negotiate_spec(ours, peers).len(),
    ensures
        negotiate_spec(ours, peers)[k].we_can_call || negotiate_spec(ours, peers)[k].we_can_respond,
        exists|i: int| 0 <= i < ours.len() && #[trigger] ours[i].name == negotiate_spec(ours, peers)[k].name
            && ours[i].versions.contains(negotiate_spec(ours, peers)[k].version)
            && peer_supports(peers, ours[i].name, negotiate_spec(ours, peers)[k].version),
    decreases ours.len(),
{
    let prev = negotiate_spec(ours.drop_last(), peers);
    if k < prev.len() {
        lemma_negotiated_usable(ours.drop_last(), peers, k);
        let i = choose|i: int| 0 <= i < ours.drop_last().len() && #[trigger] ours.drop_last()[i].name == prev[k].name
            && ours.drop_last()[i].versions.contains(prev[k].version)
            && peer_supports(peers, ours.drop_last()[i].name, prev[k].version);
        assert(ours[i] == ours.drop_last()[i]);
    } else {
        let our = ours.last();
        let p = lookup(peers, our.name)->0;
        lemma_max_common_is_greatest(our.versions, p.versions);
        assert(ours[ours.len() - 1] == our);
    }
}

/// Who may call whom in an agreement follows from the two directions: we
/// may call exactly when we are not answer-only and the peer is not
/// call-only, and we may answer exactly when we are not call-only and the
/// peer is not answer-only. So a bidirectional side facing an answer-only
/// peer may call but never answers.
pub proof fn lemma_pair_roles(our: CapModel, peer: CapModel)
    ensures
        negotiate_pair(our, peer) matches Some(n) ==> {
            &&& n.we_can_call == (our.direction != ProtocolDirection::RespondOnly
                && peer.direction != ProtocolDirection::CallOnly)
            &&& n.we_can_respond == (our.direction != ProtocolDirection::CallOnly
                && peer.direction != ProtocolDirection::RespondOnly)
        },
{
}

/// The roles of an agreement as they follow from our offer and the peer's
/// offer (if any): we may call exactly when we are not answer-only and the
/// peer is not call-only; we may answer exactly when we are not call-only
/// and the peer is not answer-only.
pub open spec fn roles_follow(n: NegModel, our: CapModel, peer: Option<CapModel>) -> bool {
    match peer {
        None => false,
        Some(p) => {
            &&& n.we_can_call == (our.direction != ProtocolDirection::RespondOnly && p.direction
                != ProtocolDirection::CallOnly)
            &&& n.we_can_respond == (our.direction != ProtocolDirection::CallOnly && p.direction
                != ProtocolDirection::RespondOnly)
        },
    }
}

/// Every protocol negotiated was offered by us and by the peer under its
/// name, and who may call whom follows from the two offers' directions.
pub proof fn lemma_negotiated_roles(ours: Seq<CapModel>, peers: Seq<CapModel>, k: int)
    requires
        0 <= k < negotiate_spec(ours, peers).len(),
    ensures
        exists|i: int|
            0 <= i < ours.len() && #[trigger] ours[i].name == negotiate_spec(ours, peers)[k].name
                && roles_follow(negotiate_spec(ours, peers)[k], ours[i], lookup(peers, ours[i].name)),
    decreases ours.len(),
{
    let prev = negotiate_spec(ours.drop_last(), peers);
    if k < prev.len() {
        lemma_negotiated_roles(ours.drop_last(), peers, k);
        let i = choose|i: int|
            0 <= i < ours.drop_last().len() && #[trigger] ours.drop_last()[i].name == prev[k].name
                && roles_follow(prev[k], ours.drop_last()[i], lookup(peers, ours.drop_last()[i].name));
        assert(ours[i] == ours.drop_last()[i]);
    } else {
        let our = ours.last();
        let p = lookup(peers, our.name)->0;
        lemma_pair_roles(our, p);
        assert(ours[ours.len() - 1] == our);
    }
}

/// Two agreements that mirror each other: same version and features, and
/// what one side may call the other may answer.
pub open spec fn mirrored(x: NegModel, y: NegModel) -> bool {
    &&& x.version == y.version
    &&& x.features == y.features
    &&& x.we_can_call == y.we_can_respond
    &&& x.we_can_respond == y.we_can_call
}

/// Negotiation agrees from both sides: if our offer and the peer's agree,
/// the peer's and ours agree on the same version and features, and what we
/// may call the peer may answer, and the other way round.
pub proof fn lemma_negotiate_pair_mirrors(a: CapModel, b: CapModel)
    requires
        a.name == b.name,
    ensures
        negotiate_pair(a, b) is Some <==> negotiate_pair(b, a) is Some,
        negotiate_pair(a, b) is Some ==> mirrored(negotiate_pair(a, b)->0, negotiate_pair(b, a)->0),
{
    lemma_max_common_is_greatest(a.versions, b.versions);
    lemma_max_common_is_greatest(b.versions, a.versions);
    if let Some(x) = max_common(a.versions, b.versions) {
        let y = max_common(b.versions, a.versions)->0;
        assert(x <= y && y <= x);
    }
    assert(a.features.intersect(b.features) =~= b.features.intersect(a.features));
}

} // verus!
