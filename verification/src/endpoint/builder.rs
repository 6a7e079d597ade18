//! Assembling an endpoint: its configuration, the protocols it registers
//! and the transports it listens or connects on.

use vstd::prelude::*;
use crate::endpoint::config::{EndpointConfig, is_default_config};
use crate::endpoint::direction::ProtocolDirection;
use crate::endpoint::error::EndpointError;
use crate::endpoint::handshake::CapModel;
use crate::endpoint::registry::{ProtocolRegistry, find_cap};
use crate::text::{decimal, decimal_string, str_eq};
use crate::observability::correlation::{is_random_shape, uuid_text, random_uuid_value, uuid_text_of};

verus! {

/// The kind of connection a transport makes.
#[derive(Debug, Clone, Copy, PartialEq, Eq, Structural)]
pub enum TransportType {
    /// Plain TCP.
    Tcp,
    /// TCP with TLS.
    Tls,
}

/// How to reach or serve a transport, and the reconnection strategy it
/// uses, if one was given.
#[derive(Debug, Clone)]
pub struct TransportConfig<R> {
    /// The kind of connection.
    pub transport_type: TransportType,
    /// The address to connect to or listen on.
    pub address: String,
    /// The reconnection strategy, if one was given.
    pub reconnection_strategy: Option<R>,
    /// Free-form metadata, in the order given.
    pub metadata: Vec<(String, String)>,
}

impl<R> TransportConfig<R> {
    /// A transport of a kind at an address, with no strategy and no
    /// metadata.
    pub fn new(transport_type: TransportType, address: &str) -> (c: Self)
        ensures
            c.transport_type == transport_type,
            c.address@ == address@,
            c.reconnection_strategy is None,
            c.metadata@.len() == 0,
    {
        TransportConfig {
            transport_type,
            address: address.to_string(),
            reconnection_strategy: None,
            metadata: Vec::new(),
        }
    }

    /// Sets the reconnection strategy.
    pub fn with_reconnection_strategy(self, strategy: R) -> (c: Self)
        ensures
            c.transport_type == self.transport_type,
            c.address == self.address,
            c.reconnection_strategy == Some(strategy),
            c.metadata == self.metadata,
    {
        TransportConfig { reconnection_strategy: Some(strategy), ..self }
    }

    /// Adds a metadata entry.
    pub fn with_metadata(self, key: &str, value: &str) -> (c: Self)
        ensures
            c.transport_type == self.transport_type,
            c.address == self.address,
            c.reconnection_strategy == self.reconnection_strategy,
            c.metadata@.len() == self.metadata@.len() + 1,
            c.metadata@.drop_last() == self.metadata@,
            c.metadata@.last().0@ == key@,
            c.metadata@.last().1@ == value@,
    {
        let mut c = self;
        let ghost before = c.metadata@;
        c.metadata.push((key.to_string(), value.to_string()));
        proof {
            assert(c.metadata@.drop_last() =~= before);
        }
        c
    }
}

/// A protocol to register when the endpoint is built.
#[derive(Debug, Clone)]
pub struct ProtocolRegistration {
    /// The protocol's name.
    pub name: String,
    /// Its version.
    pub version: u32,
    /// The direction it is used in.
    pub direction: ProtocolDirection,
}

/// A transport to add when the endpoint is built.
#[derive(Debug, Clone)]
pub struct TransportRegistration<R> {
    /// The transport's name.
    pub name: String,
    /// How to reach or serve it.
    pub config: TransportConfig<R>,
    /// Whether it listens, as opposed to connecting.
    pub is_listener: bool,
}

/// The plain values of a protocol registration.
pub open spec fn reg_view(p: ProtocolRegistration) -> (Seq<char>, u32, ProtocolDirection) {
    (p.name@, p.version, p.direction)
}

/// The plain values of a list of protocol registrations.
pub open spec fn regs_view(v: Seq<ProtocolRegistration>) -> Seq<(Seq<char>, u32, ProtocolDirection)> {
    v.map_values(|p: ProtocolRegistration| reg_view(p))
}

/// The offer a registration becomes.
pub open spec fn reg_cap(p: (Seq<char>, u32, ProtocolDirection)) -> CapModel {
    CapModel { name: p.0, versions: seq![p.1], features: Set::empty(), direction: p.2 }
}

/// The names in `regs` before position `n` are all different.
pub open spec fn distinct_prefix(regs: Seq<(Seq<char>, u32, ProtocolDirection)>, n: int) -> bool {
    forall|i: int, j: int| 0 <= i < j < n ==> regs[i].0 != regs[j].0
}

/// Collects the configuration, protocols and transports of an endpoint.
pub struct EndpointBuilder<S, R> {
    serializer: S,
    config: EndpointConfig,
    protocols: Vec<ProtocolRegistration>,
    transports: Vec<TransportRegistration<R>>,
}

/// `prefix` followed by the text of a fresh random identifier.
fn random_id_with_prefix(prefix: &str) -> (s: String)
    ensures
        s@.len() == prefix@.len() + 36,
        s@.subrange(0, prefix@.len() as int) == prefix@,
        exists|v: u128| is_random_shape(v) && s@ == prefix@ + uuid_text(v),
{
    let mut s = prefix.to_string();
    let v = random_uuid_value();
    let u = uuid_text_of(v);
    s.append(u.as_str());
    proof {
        assert(s@.subrange(0, prefix@.len() as int) =~= prefix@);
        assert(s@ == prefix@ + uuid_text(v));
    }
    s
}

impl<S, R> EndpointBuilder<S, R> {
    /// The serializer the endpoint will use.
    pub closed spec fn spec_serializer(&self) -> S {
        self.serializer
    }

    /// The configuration collected so far.
    pub closed spec fn spec_config(&self) -> EndpointConfig {
        self.config
    }

    /// The protocols collected so far, in order.
    pub closed spec fn spec_protocols(&self) -> Seq<(Seq<char>, u32, ProtocolDirection)> {
        regs_view(self.protocols@)
    }

    /// The transports collected so far, in order.
    pub closed spec fn spec_transports(&self) -> Seq<TransportRegistration<R>> {
        self.transports@
    }

    /// A builder with the default configuration and nothing registered.
    pub fn new(serializer: S) -> (b: Self)
        ensures
            b.spec_serializer() == serializer,
            is_default_config(b.spec_config()),
            b.spec_protocols().len() == 0,
            b.spec_transports().len() == 0,
    {
        let b = EndpointBuilder {
            serializer,
            config: EndpointConfig::new(),
            protocols: Vec::new(),
            transports: Vec::new(),
        };
        proof {
            assert(b.spec_protocols() =~= Seq::<(Seq<char>, u32, ProtocolDirection)>::empty());
        }
        b
    }

    /// A builder with the given configuration and nothing registered.
    pub fn with_config(serializer: S, config: EndpointConfig) -> (b: Self)
        ensures
            b.spec_serializer() == serializer,
            b.spec_config() == config,
            b.spec_protocols().len() == 0,
            b.spec_transports().len() == 0,
    {
        let b = EndpointBuilder { serializer, config, protocols: Vec::new(), transports: Vec::new() };
        proof {
            assert(b.spec_protocols() =~= Seq::<(Seq<char>, u32, ProtocolDirection)>::empty());
        }
        b
    }

    /// A client: the default configuration, named "client-" and a random
    /// identifier.
    pub fn client(serializer: S) -> (b: Self)
        ensures
            b.spec_serializer() == serializer,
            b.spec_config().channel_buffer_size == 100,
            b.spec_config().max_connections is None,
            b.spec_config().endpoint_id matches Some(id) && id@.len() == 43 && id@.subrange(0, 7)
                == "client-"@,
            b.spec_config().endpoint_id matches Some(id) && exists|v: u128|
                is_random_shape(v) && id@ == "client-"@ + uuid_text(v),
            b.spec_protocols().len() == 0,
            b.spec_transports().len() == 0,
    {
        proof {
            reveal_strlit("client-");
        }
        let id = random_id_with_prefix("client-");
        let config = EndpointConfig::new().with_endpoint_id(id);
        Self::with_config(serializer, config)
    }

    /// A server: the default configuration with at most 1000 connections,
    /// named "server-" and a random identifier.
    pub fn server(serializer: S) -> (b: Self)
        ensures
            b.spec_serializer() == serializer,
            b.spec_config().channel_buffer_size == 100,
            b.spec_config().max_connections == Some(1000usize),
            b.spec_config().endpoint_id matches Some(id) && id@.len() == 43 && id@.subrange(0, 7)
                == "server-"@,
            b.spec_config().endpoint_id matches Some(id) && exists|v: u128|
                is_random_shape(v) && id@ == "server-"@ + uuid_text(v),
            b.spec_protocols().len() == 0,
            b.spec_transports().len() == 0,
    {
        proof {
            reveal_strlit("server-");
        }
        let id = random_id_with_prefix("server-");
        let config = EndpointConfig::new().with_endpoint_id(id).with_max_connections(Some(1000));
        Self::with_config(serializer, config)
    }

    /// A peer: the default configuration with a buffer of 200 messages,
    /// named "peer-" and a random identifier.
    pub fn peer(serializer: S) -> (b: Self)
        ensures
            b.spec_serializer() == serializer,
            b.spec_config().channel_buffer_size == 200,
            b.spec_config().max_connections is None,
            b.spec_config().endpoint_id matches Some(id) && id@.len() == 41 && id@.subrange(0, 5)
                == "peer-"@,
            b.spec_config().endpoint_id matches Some(id) && exists|v: u128|
                is_random_shape(v) && id@ == "peer-"@ + uuid_text(v),
            b.spec_protocols().len() == 0,
            b.spec_transports().len() == 0,
    {
        proof {
            reveal_strlit("peer-");
        }
        let id = random_id_with_prefix("peer-");
        let config = EndpointConfig::new().with_endpoint_id(id).with_channel_buffer_size(200);
        Self::with_config(serializer, config)
    }

    /// Adds a protocol registration.
    fn add_protocol(self, protocol_name: &str, version: u32, direction: ProtocolDirection) -> (b:
        Self)
        ensures
            b.spec_serializer() == self.spec_serializer(),
            b.spec_config() == self.spec_config(),
            b.spec_protocols() == self.spec_protocols().push((protocol_name@, version, direction)),
            b.spec_transports() == self.spec_transports(),
    {
        let mut b = self;
        let ghost before = b.protocols@;
        b.protocols.push(
            ProtocolRegistration { name: protocol_name.to_string(), version, direction },
        );
        proof {
            assert(regs_view(b.protocols@) =~= regs_view(before).push(
                (protocol_name@, version, direction),
            ));
        }
        b
    }

    /// Registers a protocol that the endpoint will call.
    pub fn with_caller(self, protocol_name: &str, version: u32) -> (b: Self)
        ensures
            b.spec_serializer() == self.spec_serializer(),
            b.spec_config() == self.spec_config(),
            b.spec_protocols() == self.spec_protocols().push(
                (protocol_name@, version, ProtocolDirection::CallOnly),
            ),
            b.spec_transports() == self.spec_transports(),
    {
        self.add_protocol(protocol_name, version, ProtocolDirection::CallOnly)
    }

    /// Registers a protocol that the endpoint will answer.
    pub fn with_responder(self, protocol_name: &str, version: u32) -> (b: Self)
        ensures
            b.spec_serializer() == self.spec_serializer(),
            b.spec_config() == self.spec_config(),
            b.spec_protocols() == self.spec_protocols().push(
                (protocol_name@, version, ProtocolDirection::RespondOnly),
            ),
            b.spec_transports() == self.spec_transports(),
    {
        self.add_protocol(protocol_name, version, ProtocolDirection::RespondOnly)
    }

    /// Registers a protocol that the endpoint will call and answer.
    pub fn with_bidirectional(self, protocol_name: &str, version: u32) -> (b: Self)
        ensures
            b.spec_serializer() == self.spec_serializer(),
            b.spec_config() == self.spec_config(),
            b.spec_protocols() == self.spec_protocols().push(
                (protocol_name@, version, ProtocolDirection::Bidirectional),
            ),
            b.spec_transports() == self.spec_transports(),
    {
        self.add_protocol(protocol_name, version, ProtocolDirection::Bidirectional)
    }

    /// Replaces the configuration by what `f` makes of it.
    pub fn configure<F: FnOnce(EndpointConfig) -> EndpointConfig>(self, f: F) -> (b: Self)
        requires
            f.requires((self.spec_config(),)),
        ensures
            f.ensures((self.spec_config(),), b.spec_config()),
            b.spec_serializer() == self.spec_serializer(),
            b.spec_protocols() == self.spec_protocols(),
            b.spec_transports() == self.spec_transports(),
    {
        let EndpointBuilder { serializer, config, protocols, transports } = self;
        let config = f(config);
        EndpointBuilder { serializer, config, protocols, transports }
    }

    /// Adds a transport registration.
    fn add_transport(self, name: String, config: TransportConfig<R>, is_listener: bool) -> (b: Self)
        ensures
            b.spec_serializer() == self.spec_serializer(),
            b.spec_config() == self.spec_config(),
            b.spec_protocols() == self.spec_protocols(),
            b.spec_transports() == self.spec_transports().push(
                TransportRegistration { name, config, is_listener },
            ),
    {
        let mut b = self;
        b.transports.push(TransportRegistration { name, config, is_listener });
        b
    }

    /// The name given to the `n`-th transport when it is a listener of a
    /// kind: `<kind>-listener-<n>`.
    fn listener_name(kind: &str, n: usize) -> (s: String)
        ensures
            s@ == kind@ + "-listener-"@ + decimal(n as nat),
    {
        proof {
            reveal_strlit("-listener-");
        }
        let mut s = kind.to_string();
        s.append("-listener-");
        s.append(decimal_string(n as u64).as_str());
        s
    }

    /// Adds a TCP listener on `addr`, named "tcp-listener-" and its
    /// position among the transports.
    pub fn with_tcp_listener(self, addr: &str) -> (b: Self)
        ensures
            b.spec_serializer() == self.spec_serializer(),
            b.spec_config() == self.spec_config(),
            b.spec_protocols() == self.spec_protocols(),
            b.spec_transports().len() == self.spec_transports().len() + 1,
            b.spec_transports().drop_last() == self.spec_transports(),
            b.spec_transports().last().name@ == "tcp-listener-"@ + decimal(
                self.spec_transports().len(),
            ),
            b.spec_transports().last().config.transport_type == TransportType::Tcp,
            b.spec_transports().last().config.address@ == addr@,
            b.spec_transports().last().config.reconnection_strategy is None,
            b.spec_transports().last().config.metadata@.len() == 0,
            b.spec_transports().last().is_listener,
    {
        proof {
            reveal_strlit("tcp");
            reveal_strlit("tcp-listener-");
            reveal_strlit("-listener-");
            assert("tcp"@ + "-listener-"@ =~= "tcp-listener-"@);
        }
        let name = Self::listener_name("tcp", self.transports.len());
        let config = TransportConfig::new(TransportType::Tcp, addr);
        let b = self.add_transport(name, config, true);
        proof {
            assert(b.spec_transports().drop_last() =~= self.spec_transports());
        }
        b
    }

    /// Adds a TLS listener on `addr`, named "tls-listener-" and its
    /// position among the transports.
    pub fn with_tls_listener(self, addr: &str) -> (b: Self)
        ensures
            b.spec_serializer() == self.spec_serializer(),
            b.spec_config() == self.spec_config(),
            b.spec_protocols() == self.spec_protocols(),
            b.spec_transports().len() == self.spec_transports().len() + 1,
            b.spec_transports().drop_last() == self.spec_transports(),
            b.spec_transports().last().name@ == "tls-listener-"@ + decimal(
                self.spec_transports().len(),
            ),
            b.spec_transports().last().config.transport_type == TransportType::Tls,
            b.spec_transports().last().config.address@ == addr@,
            b.spec_transports().last().config.reconnection_strategy is None,
            b.spec_transports().last().config.metadata@.len() == 0,
            b.spec_transports().last().is_listener,
    {
        proof {
            reveal_strlit("tls");
            reveal_strlit("tls-listener-");
            reveal_strlit("-listener-");
            assert("tls"@ + "-listener-"@ =~= "tls-listener-"@);
        }
        let name = Self::listener_name("tls", self.transports.len());
        let config = TransportConfig::new(TransportType::Tls, addr);
        let b = self.add_transport(name, config, true);
        proof {
            assert(b.spec_transports().drop_last() =~= self.spec_transports());
        }
        b
    }

    /// Adds a TCP transport named `name` that connects to `addr`.
    pub fn with_tcp_caller(self, name: &str, addr: &str) -> (b: Self)
        ensures
            b.spec_serializer() == self.spec_serializer(),
            b.spec_config() == self.spec_config(),
            b.spec_protocols() == self.spec_protocols(),
            b.spec_transports().len() == self.spec_transports().len() + 1,
            b.spec_transports().drop_last() == self.spec_transports(),
            b.spec_transports().last().name@ == name@,
            b.spec_transports().last().config.transport_type == TransportType::Tcp,
            b.spec_transports().last().config.address@ == addr@,
            b.spec_transports().last().config.reconnection_strategy is None,
            b.spec_transports().last().config.metadata@.len() == 0,
            !b.spec_transports().last().is_listener,
    {
        let config = TransportConfig::new(TransportType::Tcp, addr);
        let b = self.add_transport(name.to_string(), config, false);
        proof {
            assert(b.spec_transports().drop_last() =~= self.spec_transports());
        }
        b
    }

    /// Adds a TLS transport named `name` that connects to `addr`.
    pub fn with_tls_caller(self, name: &str, addr: &str) -> (b: Self)
        ensures
            b.spec_serializer() == self.spec_serializer(),
            b.spec_config() == self.spec_config(),
            b.spec_protocols() == self.spec_protocols(),
            b.spec_transports().len() == self.spec_transports().len() + 1,
            b.spec_transports().drop_last() == self.spec_transports(),
            b.spec_transports().last().name@ == name@,
            b.spec_transports().last().config.transport_type == TransportType::Tls,
            b.spec_transports().last().config.address@ == addr@,
            b.spec_transports().last().config.reconnection_strategy is None,
            b.spec_transports().last().config.metadata@.len() == 0,
            !b.spec_transports().last().is_listener,
    {
        let config = TransportConfig::new(TransportType::Tls, addr);
        let b = self.add_transport(name.to_string(), config, false);
        proof {
            assert(b.spec_transports().drop_last() =~= self.spec_transports());
        }
        b
    }

    /// Adds a transport with its own configuration.
    pub fn with_transport(self, name: &str, config: TransportConfig<R>, is_listener: bool) -> (b:
        Self)
        ensures
            b.spec_serializer() == self.spec_serializer(),
            b.spec_config() == self.spec_config(),
            b.spec_protocols() == self.spec_protocols(),
            b.spec_transports().len() == self.spec_transports().len() + 1,
            b.spec_transports().drop_last() == self.spec_transports(),
            b.spec_transports().last().name@ == name@,
            b.spec_transports().last().config == config,
            b.spec_transports().last().is_listener == is_listener,
    {
        let b = self.add_transport(name.to_string(), config, is_listener);
        proof {
            assert(b.spec_transports().drop_last() =~= self.spec_transports());
        }
        b
    }

    /// Gives the first transport named `name` a reconnection strategy; if
    /// no transport has that name, nothing changes.
    pub fn with_reconnection_strategy(self, name: &str, strategy: R) -> (b: Self)
        ensures
            b.spec_serializer() == self.spec_serializer(),
            b.spec_config() == self.spec_config(),
            b.spec_protocols() == self.spec_protocols(),
            b.spec_transports().len() == self.spec_transports().len(),
            (forall|k: int| 0 <= k < self.spec_transports().len() ==> self.spec_transports()[k].name@
                != name@) ==> b.spec_transports() == self.spec_transports(),
            forall|k: int|
                0 <= k < self.spec_transports().len() && self.spec_transports()[k].name@ == name@
                    && (forall|j: int| 0 <= j < k ==> self.spec_transports()[j].name@ != name@)
                    ==> b.spec_transports() == self.spec_transports().update(
                    k,
                    TransportRegistration {
                        config: TransportConfig {
                            reconnection_strategy: Some(strategy),
                            ..self.spec_transports()[k].config
                        },
                        ..self.spec_transports()[k]
                    },
                ),
    {
        let mut b = self;
        let mut i: usize = 0;
        while i < b.transports.len()
            invariant
                i <= b.transports@.len(),
                b.transports@ == self.transports@,
                b.serializer == self.serializer,
                b.config == self.config,
                b.protocols == self.protocols,
                forall|j: int| 0 <= j < i ==> self.spec_transports()[j].name@ != name@,
            decreases b.transports@.len() - i,
        {
            if str_eq(b.transports[i].name.as_str(), name) {
                let ghost before = b.transports@;
                let mut transports = b.transports;
                let mut t = transports.remove(i);
                t.config.reconnection_strategy = Some(strategy);
                transports.insert(i, t);
                proof {
                    assert(transports@ =~= before.update(i as int, t));
                    assert forall|k: int|
                        0 <= k < before.len() && before[k].name@ == name@ && (forall|j: int|
                            0 <= j < k ==> before[j].name@ != name@) implies k == i by {
                        if k < i {
                        } else if k > i {
                            assert(before[i as int].name@ == name@);
                        }
                    }
                }
                return EndpointBuilder {
                    serializer: b.serializer,
                    config: b.config,
                    protocols: b.protocols,
                    transports,
                };
            }
            i = i + 1;
        }
        b
    }

    /// Registers the collected protocols in order, as building the endpoint
    /// does. The first protocol whose name was registered before stops the
    /// registration with an error.
    pub fn build_registry(&self) -> (r: Result<ProtocolRegistry, EndpointError>)
        ensures
            r is Ok <==> distinct_prefix(self.spec_protocols(), self.spec_protocols().len() as int),
            r matches Ok(reg) ==> reg.spec_caps() == self.spec_protocols().map_values(
                |p: (Seq<char>, u32, ProtocolDirection)| reg_cap(p),
            ),
            r matches Err(e) ==> exists|k: int|
                {
                    &&& 0 <= k < self.spec_protocols().len()
                    &&& distinct_prefix(self.spec_protocols(), k)
                    &&& exists|j: int| 0 <= j < k && #[trigger] self.spec_protocols()[j].0 == self.spec_protocols()[k].0
                    &&& e matches EndpointError::ProtocolAlreadyRegistered { protocol }
                    &&& protocol@ == self.spec_protocols()[k].0
                },
    {
        let ghost regs = self.spec_protocols();
        let mut registry = ProtocolRegistry::new();
        let mut i: usize = 0;
        while i < self.protocols.len()
            invariant
                i <= self.protocols@.len(),
                regs == regs_view(self.protocols@),
                registry.spec_caps() == regs.take(i as int).map_values(
                    |p: (Seq<char>, u32, ProtocolDirection)| reg_cap(p),
                ),
                distinct_prefix(regs, i as int),
            decreases self.protocols@.len() - i,
        {
            let p = &self.protocols[i];
            let ghost caps_before = registry.spec_caps();
            proof {
                lemma_find_in_prefix(regs, i as int);
            }
            match registry.register(p.name.as_str(), p.version, p.direction) {
                Ok(()) => {
                    proof {
                        assert(regs.take(i + 1).map_values(
                            |p: (Seq<char>, u32, ProtocolDirection)| reg_cap(p),
                        ) =~= caps_before.push(reg_cap(regs[i as int])));
                        assert(reg_cap(regs[i as int]).versions =~= seq![p.version]);
                    }
                },
                Err(e) => {
                    proof {
                        assert(regs[i as int].0 == p.name@);
                        let j = choose|j: int| 0 <= j < i && regs[j].0 == regs[i as int].0;
                        assert(self.spec_protocols()[j].0 == self.spec_protocols()[i as int].0);
                        assert(!distinct_prefix(regs, regs.len() as int));
                        assert({
                            &&& 0 <= i < self.spec_protocols().len()
                            &&& distinct_prefix(self.spec_protocols(), i as int)
                            &&& exists|j: int| 0 <= j < i && #[trigger] self.spec_protocols()[j].0 == self.spec_protocols()[i as int].0
                            &&& e matches EndpointError::ProtocolAlreadyRegistered { protocol }
                            &&& protocol@ == self.spec_protocols()[i as int].0
                        });
                    }
                    return Err(e);
                },
            }
            i = i + 1;
        }
        proof {
            assert(regs.take(i as int) =~= regs);
        }
        Ok(registry)
    }

    /// Takes the builder apart: serializer, configuration, protocols and
    /// transports.
    pub fn into_parts(self) -> (r: (S, EndpointConfig, Vec<ProtocolRegistration>, Vec<TransportRegistration<R>>))
        ensures
            r.0 == self.spec_serializer(),
            r.1 == self.spec_config(),
            regs_view(r.2@) == self.spec_protocols(),
            r.3@ == self.spec_transports(),
    {
        (self.serializer, self.config, self.protocols, self.transports)
    }
}

/// In a registry built from registrations with different names, each
/// registered protocol is found under its name, in the direction it was
/// registered with and at the one version it was registered at.
pub proof fn lemma_built_direction(regs: Seq<(Seq<char>, u32, ProtocolDirection)>, k: int)
    requires
        distinct_prefix(regs, regs.len() as int),
        0 <= k < regs.len(),
    ensures
        find_cap(regs.map_values(|p: (Seq<char>, u32, ProtocolDirection)| reg_cap(p)), regs[k].0)
            == Some(reg_cap(regs[k])),
        reg_cap(regs[k]).direction == regs[k].2,
        reg_cap(regs[k]).versions == seq![regs[k].1],
    decreases regs.len(),
{
    let m = regs.map_values(|p: (Seq<char>, u32, ProtocolDirection)| reg_cap(p));
    assert(m.last() == reg_cap(regs.last()));
    if k < regs.len() - 1 {
        let rest = regs.drop_last();
        assert(m.drop_last() =~= rest.map_values(
            |p: (Seq<char>, u32, ProtocolDirection)| reg_cap(p),
        ));
        assert(regs[k].0 != regs[regs.len() - 1].0);
        assert(rest[k] == regs[k]);
        lemma_built_direction(rest, k);
    }
}

/// A registration added under a new name (as `with_caller`,
/// `with_responder` and `with_bidirectional` add one) keeps the names
/// distinct, so building succeeds where it did before, and the built
/// registry finds the protocol in the direction given, at the one version
/// given.
pub proof fn lemma_added_registration_built(
    regs: Seq<(Seq<char>, u32, ProtocolDirection)>,
    name: Seq<char>,
    version: u32,
    direction: ProtocolDirection,
)
    requires
        distinct_prefix(regs, regs.len() as int),
        forall|j: int| 0 <= j < regs.len() ==> regs[j].0 != name,
    ensures
        distinct_prefix(regs.push((name, version, direction)), regs.len() + 1int),
        find_cap(
            regs.push((name, version, direction)).map_values(
                |p: (Seq<char>, u32, ProtocolDirection)| reg_cap(p),
            ),
            name,
        ) == Some(
            CapModel { name, versions: seq![version], features: Set::empty(), direction },
        ),
{
    let r2 = regs.push((name, version, direction));
    assert forall|i: int, j: int| 0 <= i < j < r2.len() implies r2[i].0 != r2[j].0 by {
        if j < regs.len() {
            assert(r2[i] == regs[i] && r2[j] == regs[j]);
        } else {
            assert(r2[i] == regs[i]);
        }
    }
    lemma_built_direction(r2, regs.len() as int);
}

/// In a registry built from the first `i` registrations, the name of the
/// `i`-th is found exactly when an earlier registration had it.
proof fn lemma_find_in_prefix(regs: Seq<(Seq<char>, u32, ProtocolDirection)>, i: int)
    requires
        0 <= i < regs.len(),
    ensures
        find_cap(
            regs.take(i).map_values(|p: (Seq<char>, u32, ProtocolDirection)| reg_cap(p)),
            regs[i].0,
        ) is Some <==> exists|j: int| 0 <= j < i && regs[j].0 == regs[i].0,
    decreases i,
{
    let m = regs.take(i).map_values(|p: (Seq<char>, u32, ProtocolDirection)| reg_cap(p));
    if i > 0 {
        let rest = regs.drop_last();
        assert(m.drop_last() =~= regs.take(i - 1).map_values(
            |p: (Seq<char>, u32, ProtocolDirection)| reg_cap(p),
        ));
        lemma_find_in_prefix_at(regs, i - 1, regs[i].0);
    }
}

/// In a registry built from the first `n` registrations, a name is found
/// exactly when one of them had it.
proof fn lemma_find_in_prefix_at(regs: Seq<(Seq<char>, u32, ProtocolDirection)>, n: int, name: Seq<char>)
    requires
        0 <= n < regs.len(),
    ensures
        find_cap(
            regs.take(n + 1).map_values(|p: (Seq<char>, u32, ProtocolDirection)| reg_cap(p)),
            name,
        ) is Some <==> exists|j: int| 0 <= j <= n && regs[j].0 == name,
    decreases n,
{
    let m = regs.take(n + 1).map_values(|p: (Seq<char>, u32, ProtocolDirection)| reg_cap(p));
    assert(m.len() == n + 1);
    assert(m.last() == reg_cap(regs[n]));
    if n > 0 {
        assert(m.drop_last() =~= regs.take(n).map_values(
            |p: (Seq<char>, u32, ProtocolDirection)| reg_cap(p),
        ));
        lemma_find_in_prefix_at(regs, n - 1, name);
        if regs[n].0 == name {
            assert(find_cap(m, name) is Some);
        } else {
            assert(find_cap(m, name) == find_cap(m.drop_last(), name));
            assert((exists|j: int| 0 <= j <= n && regs[j].0 == name) <==> (exists|j: int|
                0 <= j <= n - 1 && regs[j].0 == name));
        }
    } else {
        assert(m.drop_last() =~= Seq::<CapModel>::empty());
        assert(find_cap(m.drop_last(), name) is None);
    }
}

} // verus!
