//! The protocols an endpoint registered, and the connections it holds.

use vstd::prelude::*;
use crate::endpoint::direction::{ProtocolDirection, dir_can_respond};
use crate::endpoint::error::EndpointError;
use crate::endpoint::handshake::{
    ProtocolCapability, NegotiatedProtocol, CapModel, cap_view, caps_view, neg_view, negs_view,
    NegModel,
};
use crate::text::str_eq;

verus! {

/// The offer registered under a name, if any.
pub open spec fn find_cap(caps: Seq<CapModel>, name: Seq<char>) -> Option<CapModel>
    decreases caps.len(),
{
    if caps.len() == 0 {
        None
    } else if caps.last().name == name {
        Some(caps.last())
    } else {
        find_cap(caps.drop_last(), name)
    }
}

/// Whether some protocol among `caps` can be answered.
pub open spec fn can_respond_any(caps: Seq<CapModel>) -> bool {
    exists|k: int| 0 <= k < caps.len() && dir_can_respond(#[trigger] caps[k].direction)
}

/// The refusal to listen without a protocol to answer.
pub open spec fn listen_refusal_text() -> Seq<char> {
    "No responder protocols registered. Use register_responder() or register_bidirectional() before listening."@
}

/// No name is registered twice.
pub open spec fn names_distinct(caps: Seq<CapModel>) -> bool {
    forall|i: int, j: int| 0 <= i < j < caps.len() ==> caps[i].name != caps[j].name
}

/// The protocols an endpoint registered, in the order of registration, each
/// name once.
#[derive(Debug)]
pub struct ProtocolRegistry {
    capabilities: Vec<ProtocolCapability>,
}

/// Where the registry holds a name, if it does.
fn position(caps: &Vec<ProtocolCapability>, name: &str) -> (r: Option<usize>)
    ensures
        match r {
            None => find_cap(caps_view(caps@), name@) is None,
            Some(k) => k < caps@.len() && find_cap(caps_view(caps@), name@) == Some(
                cap_view(caps@[k as int]),
            ),
        },
{
    let ghost cm = caps_view(caps@);
    let mut i: usize = caps.len();
    proof {
        assert(cm.take(caps@.len() as int) =~= cm);
    }
    while i > 0
        invariant
            i <= caps@.len(),
            cm == caps_view(caps@),
            find_cap(cm, name@) == find_cap(cm.take(i as int), name@),
        decreases i,
    {
        proof {
            assert(cm.take(i as int).drop_last() =~= cm.take(i - 1));
            assert(cm.take(i as int).last() == cm[i - 1]);
        }
        if str_eq(caps[i - 1].protocol_name.as_str(), name) {
            return Some(i - 1);
        }
        i = i - 1;
    }
    proof {
        assert(cm.take(0) =~= Seq::<CapModel>::empty());
    }
    None
}

impl ProtocolRegistry {
    /// Listening needs a protocol to answer: `Ok` exactly when some
    /// registered protocol can be answered, and otherwise a configuration
    /// error that says which registrations are missing.
    pub fn check_can_listen(&self) -> (r: Result<(), EndpointError>)
        ensures
            can_respond_any(self.spec_caps()) ==> r is Ok,
            !can_respond_any(self.spec_caps()) ==> (r matches Err(
                EndpointError::InvalidConfiguration { reason },
            ) && reason@ == listen_refusal_text()),
    {
        proof {
            reveal_strlit(
                "No responder protocols registered. Use register_responder() or register_bidirectional() before listening.",
            );
        }
        if self.has_responder() {
            Ok(())
        } else {
            Err(
                EndpointError::InvalidConfiguration {
                    reason: "No responder protocols registered. Use register_responder() or register_bidirectional() before listening.".to_string(),
                },
            )
        }
    }

    /// Whether some registered protocol can be answered.
    fn has_responder(&self) -> (r: bool)
        ensures
            r == can_respond_any(self.spec_caps()),
    {
        let mut i: usize = 0;
        while i < self.capabilities.len()
            invariant
                i <= self.capabilities@.len(),
                forall|j: int| 0 <= j < i ==> !dir_can_respond(
                    #[trigger] self.spec_caps()[j].direction,
                ),
            decreases self.capabilities@.len() - i,
        {
            if self.capabilities[i].direction.can_respond() {
                assert(dir_can_respond(self.spec_caps()[i as int].direction));
                return true;
            }
            i = i + 1;
        }
        false
    }

    /// The registered offers, in the order of registration.
    pub closed spec fn spec_caps(&self) -> Seq<CapModel> {
        caps_view(self.capabilities@)
    }

    /// Each name is registered once.
    #[verifier::type_invariant]
    spec fn wf(&self) -> bool {
        names_distinct(self.spec_caps())
    }

    /// A registry with nothing registered.
    pub fn new() -> (r: Self)
        ensures
            r.spec_caps().len() == 0,
    {
        let r = ProtocolRegistry { capabilities: Vec::new() };
        proof {
            assert(r.spec_caps() =~= Seq::<CapModel>::empty());
        }
        r
    }

    /// Registers a protocol at one version in a direction. A name that is
    /// registered already is refused and the registry stays as it was.
    pub fn register(&mut self, protocol_name: &str, version: u32, direction: ProtocolDirection) -> (r:
        Result<(), EndpointError>)
        ensures
            r is Ok <==> find_cap(old(self).spec_caps(), protocol_name@) is None,
            r matches Err(e) ==> (e matches EndpointError::ProtocolAlreadyRegistered { protocol }
                && protocol@ == protocol_name@) && final(self).spec_caps() == old(self).spec_caps(),
            r is Ok ==> final(self).spec_caps() == old(self).spec_caps().push(
                CapModel {
                    name: protocol_name@,
                    versions: seq![version],
                    features: Set::empty(),
                    direction,
                },
            ),
    {
        proof {
            use_type_invariant(&*self);
        }
        match position(&self.capabilities, protocol_name) {
            Some(_) => Err(
                EndpointError::ProtocolAlreadyRegistered { protocol: protocol_name.to_string() },
            ),
            None => {
                let mut versions: Vec<u32> = Vec::new();
                versions.push(version);
                let cap = ProtocolCapability::new(protocol_name, versions, direction);
                let mut caps: Vec<ProtocolCapability> = Vec::new();
                std::mem::swap(&mut caps, &mut self.capabilities);
                let ghost before = caps@;
                caps.push(cap);
                proof {
                    lemma_find_cap_absent(caps_view(before), protocol_name@);
                    assert(caps_view(caps@) =~= caps_view(before).push(cap_view(cap)));
                    assert(cap_view(cap).versions =~= seq![version]);
                    assert(cap_view(cap).features =~= Set::<Seq<char>>::empty());
                }
                self.capabilities = caps;
                Ok(())
            },
        }
    }

    /// Registers a protocol that this endpoint calls.
    pub fn register_caller(&mut self, protocol_name: &str, version: u32) -> (r: Result<(), EndpointError>)
        ensures
            r is Ok <==> find_cap(old(self).spec_caps(), protocol_name@) is None,
            r is Err ==> final(self).spec_caps() == old(self).spec_caps(),
            r is Ok ==> final(self).spec_caps() == old(self).spec_caps().push(
                CapModel {
                    name: protocol_name@,
                    versions: seq![version],
                    features: Set::empty(),
                    direction: ProtocolDirection::CallOnly,
                },
            ),
    {
        self.register(protocol_name, version, ProtocolDirection::CallOnly)
    }

    /// Registers a protocol that this endpoint answers.
    pub fn register_responder(&mut self, protocol_name: &str, version: u32) -> (r: Result<
        (),
        EndpointError,
    >)
        ensures
            r is Ok <==> find_cap(old(self).spec_caps(), protocol_name@) is None,
            r is Err ==> final(self).spec_caps() == old(self).spec_caps(),
            r is Ok ==> final(self).spec_caps() == old(self).spec_caps().push(
                CapModel {
                    name: protocol_name@,
                    versions: seq![version],
                    features: Set::empty(),
                    direction: ProtocolDirection::RespondOnly,
                },
            ),
    {
        self.register(protocol_name, version, ProtocolDirection::RespondOnly)
    }

    /// Registers a protocol that this endpoint calls and answers.
    pub fn register_bidirectional(&mut self, protocol_name: &str, version: u32) -> (r: Result<
        (),
        EndpointError,
    >)
        ensures
            r is Ok <==> find_cap(old(self).spec_caps(), protocol_name@) is None,
            r is Err ==> final(self).spec_caps() == old(self).spec_caps(),
            r is Ok ==> final(self).spec_caps() == old(self).spec_caps().push(
                CapModel {
                    name: protocol_name@,
                    versions: seq![version],
                    features: Set::empty(),
                    direction: ProtocolDirection::Bidirectional,
                },
            ),
    {
        self.register(protocol_name, version, ProtocolDirection::Bidirectional)
    }

    /// Whether a protocol is registered.
    pub fn has_protocol(&self, protocol_name: &str) -> (r: bool)
        ensures
            r == (find_cap(self.spec_caps(), protocol_name@) is Some),
    {
        position(&self.capabilities, protocol_name).is_some()
    }

    /// The direction a protocol was registered in; an error if it was not.
    pub fn protocol_direction(&self, protocol_name: &str) -> (r: Result<ProtocolDirection, EndpointError>)
        ensures
            match find_cap(self.spec_caps(), protocol_name@) {
                Some(c) => r == Ok::<ProtocolDirection, EndpointError>(c.direction),
                None => r matches Err(EndpointError::ProtocolNotRegistered { protocol })
                    && protocol@ == protocol_name@,
            },
    {
        match position(&self.capabilities, protocol_name) {
            Some(k) => Ok(self.capabilities[k].direction),
            None => Err(EndpointError::ProtocolNotRegistered { protocol: protocol_name.to_string() }),
        }
    }

    /// The registered offers, in the order of registration.
    pub fn capabilities(&self) -> (r: Vec<ProtocolCapability>)
        ensures
            caps_view(r@) == self.spec_caps(),
    {
        let mut r: Vec<ProtocolCapability> = Vec::new();
        let mut i: usize = 0;
        while i < self.capabilities.len()
            invariant
                i <= self.capabilities@.len(),
                caps_view(r@) == caps_view(self.capabilities@).take(i as int),
            decreases self.capabilities@.len() - i,
        {
            let c = self.capabilities[i].duplicate();
            let ghost before = r@;
            r.push(c);
            proof {
                assert(caps_view(r@) =~= caps_view(before).push(cap_view(c)));
                assert(caps_view(self.capabilities@).take(i + 1) =~= caps_view(
                    self.capabilities@,
                ).take(i as int).push(cap_view(self.capabilities@[i as int])));
            }
            i = i + 1;
        }
        proof {
            assert(caps_view(self.capabilities@).take(i as int) =~= caps_view(self.capabilities@));
        }
        r
    }
}

/// When no offer has the name, pushing one with it keeps names distinct.
proof fn lemma_find_cap_absent(caps: Seq<CapModel>, name: Seq<char>)
    ensures
        find_cap(caps, name) is None <==> forall|i: int| 0 <= i < caps.len() ==> caps[i].name != name,
    decreases caps.len(),
{
    if caps.len() > 0 {
        lemma_find_cap_absent(caps.drop_last(), name);
        assert forall|i: int| 0 <= i < caps.len() - 1 implies caps.drop_last()[i] == caps[i] by {}
    }
}

/// A registered protocol is found again, in the direction it was
/// registered in; registering a name twice is refused.
pub proof fn lemma_register_then_find(
    caps: Seq<CapModel>,
    name: Seq<char>,
    version: u32,
    direction: ProtocolDirection,
)
    ensures
        ({
            let c = CapModel {
                name,
                versions: seq![version],
                features: Set::empty(),
                direction,
            };
            find_cap(caps.push(c), name) == Some(c) && find_cap(caps.push(c), name) is Some
        }),
{
    let c = CapModel { name, versions: seq![version], features: Set::empty(), direction };
    assert(caps.push(c).last() == c);
}

/// Registering a protocol does not change what is found under any other
/// name.
pub proof fn lemma_register_keeps_others(caps: Seq<CapModel>, c: CapModel, other: Seq<char>)
    requires
        other != c.name,
    ensures
        find_cap(caps.push(c), other) == find_cap(caps, other),
{
    assert(caps.push(c).drop_last() =~= caps);
}

/// An open connection and the protocols negotiated on it.
#[derive(Debug, Clone)]
pub struct Connection {
    id: String,
    negotiated_protocols: Vec<NegotiatedProtocol>,
}

/// The first negotiated protocol with a name, if any.
pub open spec fn find_negotiated(v: Seq<NegModel>, name: Seq<char>) -> Option<int>
    decreases v.len(),
{
    if v.len() == 0 {
        None
    } else if v[0].name == name {
        Some(0)
    } else {
        match find_negotiated(v.drop_first(), name) {
            Some(k) => Some(k + 1),
            None => None,
        }
    }
}

impl Connection {
    /// The connection's identifier.
    pub closed spec fn spec_id(&self) -> Seq<char> {
        self.id@
    }

    /// The protocols negotiated.
    pub closed spec fn spec_protocols(&self) -> Seq<NegModel> {
        negs_view(self.negotiated_protocols@)
    }

    /// A connection with its identifier and negotiated protocols.
    pub fn new(id: String, negotiated_protocols: Vec<NegotiatedProtocol>) -> (c: Self)
        ensures
            c.spec_id() == id@,
            c.spec_protocols() == negs_view(negotiated_protocols@),
    {
        Connection { id, negotiated_protocols }
    }

    /// The connection's identifier.
    pub fn id(&self) -> (r: &str)
        ensures
            r@ == self.spec_id(),
    {
        self.id.as_str()
    }

    /// The protocols negotiated.
    pub fn protocols(&self) -> (r: &[NegotiatedProtocol])
        ensures
            negs_view(r@) == self.spec_protocols(),
    {
        self.negotiated_protocols.as_slice()
    }

    /// Whether a protocol was negotiated.
    pub fn has_protocol(&self, name: &str) -> (r: bool)
        ensures
            r == (find_negotiated(self.spec_protocols(), name@) is Some),
    {
        self.get_protocol(name).is_some()
    }

    /// The first protocol negotiated under a name, if any.
    pub fn get_protocol(&self, name: &str) -> (r: Option<&NegotiatedProtocol>)
        ensures
            match find_negotiated(self.spec_protocols(), name@) {
                None => r is None,
                Some(k) => r matches Some(p) && neg_view(*p) == self.spec_protocols()[k],
            },
    {
        let ghost v = self.spec_protocols();
        let mut i: usize = 0;
        proof {
            assert(v.skip(0) =~= v);
        }
        while i < self.negotiated_protocols.len()
            invariant
                i <= self.negotiated_protocols@.len(),
                v == negs_view(self.negotiated_protocols@),
                find_negotiated(v, name@) == (match find_negotiated(v.skip(i as int), name@) {
                    Some(k) => Some(k + i),
                    None => None,
                }),
            decreases self.negotiated_protocols@.len() - i,
        {
            proof {
                assert(v.skip(i as int).drop_first() =~= v.skip(i + 1));
                assert(v.skip(i as int)[0] == v[i as int]);
            }
            if str_eq(self.negotiated_protocols[i].name.as_str(), name) {
                return Some(&self.negotiated_protocols[i]);
            }
            i = i + 1;
        }
        proof {
            assert(v.skip(i as int) =~= Seq::<NegModel>::empty());
        }
        None
    }
}

} // verus!
