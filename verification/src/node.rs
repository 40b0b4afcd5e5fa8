//! The two builders an application starts from.
//!
//! A [`ServerBuilder`] collects what a server runs with: its cores, the
//! handler, the transport, the topology registry, the handshake and the
//! connection mode. A [`Node`] describes a process that serves, connects,
//! or both, over one discovery store. Each piece is set by a type-changing
//! step, so what is missing shows in the type (`NoHandler`, `NoServe`, ...).
//! Starting either (sockets, threads, awaiting the registry) is the
//! runtime's part.

use vstd::prelude::*;
use crate::gate::{ConnectionGate, ConnectionMode};
use crate::handshake::HandshakeMode;
use crate::session::ClientConfig;

verus! {

/// No handler chosen yet.
#[derive(Debug, Clone, Copy)]
pub struct NoHandler;

/// No transport chosen yet.
#[derive(Debug, Clone, Copy)]
pub struct NoTransport;

/// The configuration of a server.
pub struct ServerBuilder<H, T, R> {
    cores: usize,
    handler: H,
    transport: Option<T>,
    registry: Option<R>,
    handshake: HandshakeMode,
    connection_mode: ConnectionMode,
}

/// A server on one core, without handler, transport or registry, with no
/// handshake, admitting any number of connections.
pub fn setup<R>() -> (b: ServerBuilder<NoHandler, NoTransport, R>)
    ensures
        b.spec_cores() == 1,
        b.spec_transport() is None,
        b.spec_registry() is None,
        b.spec_handshake() is Disabled,
        b.spec_connection_mode() == ConnectionMode::OneToMany,
{
    ServerBuilder {
        cores: 1,
        handler: NoHandler,
        transport: None,
        registry: None,
        handshake: HandshakeMode::Disabled,
        connection_mode: ConnectionMode::OneToMany,
    }
}

impl<H, T, R> ServerBuilder<H, T, R> {
    pub closed spec fn spec_cores(&self) -> usize {
        self.cores
    }

    pub closed spec fn spec_handler(&self) -> H {
        self.handler
    }

    pub closed spec fn spec_transport(&self) -> Option<T> {
        self.transport
    }

    pub closed spec fn spec_registry(&self) -> Option<R> {
        self.registry
    }

    pub closed spec fn spec_handshake(&self) -> crate::handshake::ModeModel {
        self.handshake@
    }

    pub closed spec fn spec_connection_mode(&self) -> ConnectionMode {
        self.connection_mode
    }

    /// Whether `other` is this builder with only the fields named by the
    /// step changed: `cores`, `registry`, `handshake`, `mode`.
    pub open spec fn same_but(
        &self,
        other: &Self,
        cores: bool,
        registry: bool,
        handshake: bool,
        mode: bool,
    ) -> bool {
        &&& (!cores ==> other.spec_cores() == self.spec_cores())
        &&& (!registry ==> other.spec_registry() == self.spec_registry())
        &&& (!handshake ==> other.spec_handshake() == self.spec_handshake())
        &&& (!mode ==> other.spec_connection_mode() == self.spec_connection_mode())
        &&& other.spec_handler() == self.spec_handler()
        &&& other.spec_transport() == self.spec_transport()
    }

    /// Runs the server on one core.
    pub fn single_thread(self) -> (b: Self)
        ensures
            b.spec_cores() == 1,
            self.same_but(&b, true, false, false, false),
    {
        ServerBuilder { cores: 1, ..self }
    }

    /// Runs the server on `n` cores, one worker each.
    pub fn threads(self, n: usize) -> (b: Self)
        ensures
            b.spec_cores() == n,
            self.same_but(&b, true, false, false, false),
    {
        ServerBuilder { cores: n, ..self }
    }

    /// Publishes the server's endpoints through `registry`.
    pub fn with_registry(self, registry: R) -> (b: Self)
        ensures
            b.spec_registry() == Some(registry),
            self.same_but(&b, false, true, false, false),
    {
        ServerBuilder { registry: Some(registry), ..self }
    }

    /// Authenticates every connection with `handshake` first.
    pub fn with_handshake(self, handshake: HandshakeMode) -> (b: Self)
        ensures
            b.spec_handshake() == handshake@,
            self.same_but(&b, false, false, true, false),
    {
        ServerBuilder { handshake, ..self }
    }

    /// Admits one connection at a time.
    pub fn one_to_one(self) -> (b: Self)
        ensures
            b.spec_connection_mode() == ConnectionMode::OneToOne,
            self.same_but(&b, false, false, false, true),
    {
        ServerBuilder { connection_mode: ConnectionMode::OneToOne, ..self }
    }

    /// Admits any number of connections.
    pub fn one_to_many(self) -> (b: Self)
        ensures
            b.spec_connection_mode() == ConnectionMode::OneToMany,
            self.same_but(&b, false, false, false, true),
    {
        ServerBuilder { connection_mode: ConnectionMode::OneToMany, ..self }
    }

    /// Serves requests with `handler`.
    pub fn service<NewH>(self, handler: NewH) -> (b: ServerBuilder<NewH, T, R>)
        ensures
            b.spec_handler() == handler,
            b.spec_cores() == self.spec_cores(),
            b.spec_transport() == self.spec_transport(),
            b.spec_registry() == self.spec_registry(),
            b.spec_handshake() == self.spec_handshake(),
            b.spec_connection_mode() == self.spec_connection_mode(),
    {
        ServerBuilder {
            cores: self.cores,
            handler,
            transport: self.transport,
            registry: self.registry,
            handshake: self.handshake,
            connection_mode: self.connection_mode,
        }
    }

    /// Listens through `transport`.
    pub fn with_transport<NewT>(self, transport: NewT) -> (b: ServerBuilder<H, NewT, R>)
        ensures
            b.spec_transport() == Some(transport),
            b.spec_handler() == self.spec_handler(),
            b.spec_cores() == self.spec_cores(),
            b.spec_registry() == self.spec_registry(),
            b.spec_handshake() == self.spec_handshake(),
            b.spec_connection_mode() == self.spec_connection_mode(),
    {
        ServerBuilder {
            cores: self.cores,
            handler: self.handler,
            transport: Some(transport),
            registry: self.registry,
            handshake: self.handshake,
            connection_mode: self.connection_mode,
        }
    }

    pub fn cores(&self) -> (n: usize)
        ensures
            n == self.spec_cores(),
    {
        self.cores
    }

    /// A fresh admission state in this server's connection mode. Make it
    /// once and let every worker of the server admit through that one value.
    pub fn connection_gate(&self) -> (g: ConnectionGate)
        ensures
            g.spec_mode() == self.spec_connection_mode(),
            !g.spec_active(),
    {
        ConnectionGate::new(self.connection_mode)
    }

    /// Takes the builder apart for starting: cores, handler, transport,
    /// registry, handshake and connection mode.
    pub fn into_parts(self) -> (p: (usize, H, Option<T>, Option<R>, HandshakeMode, ConnectionMode))
        ensures
            p.0 == self.spec_cores(),
            p.1 == self.spec_handler(),
            p.2 == self.spec_transport(),
            p.3 == self.spec_registry(),
            p.4@ == self.spec_handshake(),
            p.5 == self.spec_connection_mode(),
    {
        (self.cores, self.handler, self.transport, self.registry, self.handshake, self.connection_mode)
    }
}

/// The node does not serve (yet).
#[derive(Debug, Clone, Copy)]
pub struct NoServe;

/// The node does not connect (yet).
#[derive(Debug, Clone, Copy)]
pub struct NoConnect;

/// What a node serves: its transport and handler, and the service name it
/// publishes its topology under, if any.
pub struct ServeConfig<H, T> {
    transport: T,
    handler: H,
    publish_as: Option<String>,
}

/// What a node connects to: its transport, the service it waits for
/// (`None`: its own), and the client settings, if set.
pub struct ConnectConfig<T> {
    transport: T,
    wait_for: Option<String>,
    config: Option<ClientConfig>,
}

pub open spec fn opt_chars(o: Option<String>) -> Option<Seq<char>> {
    match o {
        Some(s) => Some(s@),
        None => None,
    }
}

impl<H, T> ServeConfig<H, T> {
    pub closed spec fn spec_transport(&self) -> T {
        self.transport
    }

    pub closed spec fn spec_handler(&self) -> H {
        self.handler
    }

    pub closed spec fn spec_publish_as(&self) -> Option<Seq<char>> {
        opt_chars(self.publish_as)
    }

    /// Takes the configuration apart: transport, handler and the service
    /// name to publish under (empty when none was set).
    pub fn into_parts(self) -> (p: (T, H, String))
        ensures
            p.0 == self.spec_transport(),
            p.1 == self.spec_handler(),
            p.2@ == match self.spec_publish_as() {
                Some(n) => n,
                None => Seq::<char>::empty(),
            },
    {
        let name = match self.publish_as {
            Some(n) => n,
            None => String::new(),
        };
        (self.transport, self.handler, name)
    }
}

impl<T> ConnectConfig<T> {
    pub closed spec fn spec_transport(&self) -> T {
        self.transport
    }

    pub closed spec fn spec_wait_for(&self) -> Option<Seq<char>> {
        opt_chars(self.wait_for)
    }

    pub closed spec fn spec_timeout(&self) -> Option<u64> {
        match self.config {
            Some(c) => Some(c.timeout_seconds),
            None => None,
        }
    }

    /// The client settings the connection uses: the ones set, the
    /// defaults otherwise.
    pub fn client_config(&self) -> (c: ClientConfig)
        ensures
            c.timeout_seconds == match self.spec_timeout() {
                Some(t) => t,
                None => 10,
            },
    {
        match &self.config {
            Some(c) => c.clone_config(),
            None => ClientConfig::default(),
        }
    }

    /// Takes the configuration apart: transport and awaited service.
    pub fn into_parts(self) -> (p: (T, Option<String>))
        ensures
            p.0 == self.spec_transport(),
            opt_chars(p.1) == self.spec_wait_for(),
    {
        (self.transport, self.wait_for)
    }
}

/// A process that serves (`S`), connects (`C`), or both, discovering
/// services through the store `K`, on `threads` cores.
pub struct Node<S, C, K> {
    serve: S,
    connect: C,
    kv: K,
    threads: usize,
}

impl<K> Node<NoServe, NoConnect, K> {
    /// A node over the store `kv` that neither serves nor connects yet, on
    /// one core.
    pub fn new(kv: K) -> (n: Self)
        ensures
            n.spec_kv() == kv,
            n.spec_threads() == 1,
    {
        Node { serve: NoServe, connect: NoConnect, kv, threads: 1 }
    }
}

impl<S, C, K> Node<S, C, K> {
    pub closed spec fn spec_serve(&self) -> S {
        self.serve
    }

    pub closed spec fn spec_connect(&self) -> C {
        self.connect
    }

    pub closed spec fn spec_kv(&self) -> K {
        self.kv
    }

    pub closed spec fn spec_threads(&self) -> usize {
        self.threads
    }

    /// Discovers services through `kv` instead.
    pub fn kv(self, kv: K) -> (n: Self)
        ensures
            n.spec_kv() == kv,
            n.spec_serve() == self.spec_serve(),
            n.spec_connect() == self.spec_connect(),
            n.spec_threads() == self.spec_threads(),
    {
        Node { kv, ..self }
    }

    /// Serves on one core.
    pub fn single_thread(self) -> (n: Self)
        ensures
            n.spec_threads() == 1,
            n.spec_kv() == self.spec_kv(),
            n.spec_serve() == self.spec_serve(),
            n.spec_connect() == self.spec_connect(),
    {
        Node { threads: 1, ..self }
    }

    /// Serves on `threads` cores.
    pub fn threads(self, threads: usize) -> (n: Self)
        ensures
            n.spec_threads() == threads,
            n.spec_kv() == self.spec_kv(),
            n.spec_serve() == self.spec_serve(),
            n.spec_connect() == self.spec_connect(),
    {
        Node { threads, ..self }
    }

    /// Takes the node apart for starting.
    pub fn into_parts(self) -> (p: (S, C, K, usize))
        ensures
            p.0 == self.spec_serve(),
            p.1 == self.spec_connect(),
            p.2 == self.spec_kv(),
            p.3 == self.spec_threads(),
    {
        (self.serve, self.connect, self.kv, self.threads)
    }
}

impl<C, K> Node<NoServe, C, K> {
    /// Serves `handler` over `transport`.
    pub fn serve<H, T>(self, transport: T, handler: H) -> (n: Node<ServeConfig<H, T>, C, K>)
        ensures
            n.spec_serve().spec_transport() == transport,
            n.spec_serve().spec_handler() == handler,
            n.spec_serve().spec_publish_as() is None,
            n.spec_connect() == self.spec_connect(),
            n.spec_kv() == self.spec_kv(),
            n.spec_threads() == self.spec_threads(),
    {
        Node {
            serve: ServeConfig { transport, handler, publish_as: None },
            connect: self.connect,
            kv: self.kv,
            threads: self.threads,
        }
    }
}

impl<S, K> Node<S, NoConnect, K> {
    /// Connects over `transport`.
    pub fn connect<T>(self, transport: T) -> (n: Node<S, ConnectConfig<T>, K>)
        ensures
            n.spec_connect().spec_transport() == transport,
            n.spec_connect().spec_wait_for() is None,
            n.spec_connect().spec_timeout() is None,
            n.spec_serve() == self.spec_serve(),
            n.spec_kv() == self.spec_kv(),
            n.spec_threads() == self.spec_threads(),
    {
        Node {
            serve: self.serve,
            connect: ConnectConfig { transport, wait_for: None, config: None },
            kv: self.kv,
            threads: self.threads,
        }
    }
}

impl<H, T, C, K> Node<ServeConfig<H, T>, C, K> {
    /// Publishes the served topology under the service `name`.
    pub fn publish(self, name: String) -> (n: Self)
        ensures
            n.spec_serve().spec_publish_as() == Some(name@),
            n.spec_serve().spec_transport() == self.spec_serve().spec_transport(),
            n.spec_serve().spec_handler() == self.spec_serve().spec_handler(),
            n.spec_connect() == self.spec_connect(),
            n.spec_kv() == self.spec_kv(),
            n.spec_threads() == self.spec_threads(),
    {
        let serve = ServeConfig {
            transport: self.serve.transport,
            handler: self.serve.handler,
            publish_as: Some(name),
        };
        Node { serve, connect: self.connect, kv: self.kv, threads: self.threads }
    }
}

impl<S, T, K> Node<S, ConnectConfig<T>, K> {
    /// Connects to the service `name` once it appears.
    pub fn wait_for(self, name: String) -> (n: Self)
        ensures
            n.spec_connect().spec_wait_for() == Some(name@),
            n.spec_connect().spec_transport() == self.spec_connect().spec_transport(),
            n.spec_connect().spec_timeout() == self.spec_connect().spec_timeout(),
            n.spec_serve() == self.spec_serve(),
            n.spec_kv() == self.spec_kv(),
            n.spec_threads() == self.spec_threads(),
    {
        let connect = ConnectConfig {
            transport: self.connect.transport,
            wait_for: Some(name),
            config: self.connect.config,
        };
        Node { serve: self.serve, connect, kv: self.kv, threads: self.threads }
    }

    /// Lets each call wait `secs` seconds for its response; the other
    /// client settings stay as set (or at their defaults).
    pub fn timeout(self, secs: u64) -> (n: Self)
        ensures
            n.spec_connect().spec_timeout() == Some(secs),
            n.spec_connect().spec_transport() == self.spec_connect().spec_transport(),
            n.spec_connect().spec_wait_for() == self.spec_connect().spec_wait_for(),
            n.spec_serve() == self.spec_serve(),
            n.spec_kv() == self.spec_kv(),
            n.spec_threads() == self.spec_threads(),
    {
        let mut cfg = match self.connect.config {
            Some(c) => c,
            None => ClientConfig::default(),
        };
        cfg.timeout_seconds = secs;
        let connect = ConnectConfig {
            transport: self.connect.transport,
            wait_for: self.connect.wait_for,
            config: Some(cfg),
        };
        Node { serve: self.serve, connect, kv: self.kv, threads: self.threads }
    }
}

} // verus!
