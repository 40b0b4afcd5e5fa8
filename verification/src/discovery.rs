//! Discovery bookkeeping: the key layout of the KV store, the topology a
//! server publishes (transport, codec, one endpoint per core), the collector
//! that assembles it as workers come up, and the checks a client makes
//! before connecting to it.

use vstd::prelude::*;
use std::collections::HashMap;
use crate::endpoint::spec_join;
use crate::endpoint::join_path;

verus! {

broadcast use vstd::std_specs::hash::group_hash_axioms;

/// Which KV backend (and thus which discovery scope) a node uses.
#[derive(Debug, Clone, Copy, PartialEq, Eq, Structural)]
pub enum Scope {
    /// Cross-process / cross-VM discovery through the Windows registry.
    Shared,
    /// Same-host discovery through native OS mechanisms.
    Internal,
}

impl Default for Scope {
    fn default() -> (s: Self)
        ensures
            s == Scope::Shared,
    {
        Scope::Shared
    }
}

/// What a server publishes: its transport and codec, and the endpoint each
/// core listens on.
#[derive(Debug, Clone)]
pub struct Topology {
    pub transport_kind: String,
    pub codec_kind: String,
    pub map: HashMap<usize, String>,
}

impl Default for Topology {
    fn default() -> (t: Self)
        ensures
            t.transport_kind@ == Seq::<char>::empty(),
            t.codec_kind@ == Seq::<char>::empty(),
            t.map@ == Map::<usize, String>::empty(),
    {
        Topology { transport_kind: String::new(), codec_kind: String::new(), map: HashMap::new() }
    }
}

// ---- keys ----

pub open spec fn spec_service_key(service: Seq<char>) -> Seq<char> {
    "Services\\"@ + service
}

pub open spec fn spec_host_key(vm: Seq<char>) -> Seq<char> {
    "Hosts\\"@ + vm
}

/// The KV key a service's topology is stored under: `Services\<name>`.
pub fn service_key(service: &str) -> (k: String)
    ensures
        k@ == spec_service_key(service@),
{
    let mut k = String::from_str("Services\\");
    k.append(service);
    k
}

/// The KV key a VM's id is stored under: `Hosts\<name>`.
pub fn host_key(vm: &str) -> (k: String)
    ensures
        k@ == spec_host_key(vm@),
{
    let mut k = String::from_str("Hosts\\");
    k.append(vm);
    k
}

/// The registry key all discovery data lives under.
pub fn default_registry_base() -> (b: String)
    ensures
        b@ == "HKCU\\Software\\Ogurpchik"@,
{
    String::from_str("HKCU\\Software\\Ogurpchik")
}

/// The `reg.exe` to run: through the Windows mount from WSL/Linux, from
/// the path otherwise.
pub fn reg_exe(unix: bool) -> (p: &'static str)
    ensures
        p@ == (if unix {
            "/mnt/c/Windows/System32/reg.exe"@
        } else {
            "reg.exe"@
        }),
{
    if unix {
        "/mnt/c/Windows/System32/reg.exe"
    } else {
        "reg.exe"
    }
}

/// The shared-scope store: the registry under `HKCU\Software\Ogurpchik`.
/// Creating the key itself is the caller's (`reg.exe add`) step.
pub fn default_kv() -> (kv: RegistryKv)
    ensures
        kv.spec_base() == "HKCU\\Software\\Ogurpchik"@,
{
    RegistryKv::from_base(default_registry_base())
}

/// A KV store in the Windows registry under the key `base`.
#[derive(Debug, Clone)]
pub struct RegistryKv {
    base: String,
}

impl RegistryKv {
    pub closed spec fn spec_base(&self) -> Seq<char> {
        self.base@
    }

    /// A store rooted at `base` (the key must already exist).
    pub fn from_base(base: String) -> (kv: RegistryKv)
        ensures
            kv.spec_base() == base@,
    {
        RegistryKv { base }
    }

    pub fn base(&self) -> (b: &str)
        ensures
            b@ == self.spec_base(),
    {
        self.base.as_str()
    }

    /// The registry path of `key`: `<base>\<key>`.
    pub fn full_path(&self, key: &str) -> (p: String)
        ensures
            p@ == self.spec_base() + "\\"@ + key@,
    {
        let mut p = self.base.clone();
        p.append("\\");
        p.append(key);
        p
    }
}

/// The directory name the tmpfs store keeps its keys in, inside the
/// runtime directory.
pub open spec fn tmpfs_dir_name() -> Seq<char> {
    "ogurpchik"@
}

/// The relative file path of a key: backslashes become `/`.
pub open spec fn spec_key_to_rel(key: Seq<char>) -> Seq<char> {
    key.map_values(|c: char| if c == '\\' { '/' } else { c })
}

/// The file of `key` in a store rooted at `base`: the key's relative path
/// joined onto `base`, or the path itself when it is absolute.
pub open spec fn spec_tmpfs_path(base: Seq<char>, key: Seq<char>) -> Seq<char> {
    let rel = spec_key_to_rel(key);
    if rel.len() > 0 && rel[0] == '/' {
        rel
    } else {
        spec_join(base, rel)
    }
}

/// A KV store of one file per key under a runtime directory.
#[derive(Debug, Clone)]
pub struct TmpfsKv {
    base: String,
}

impl TmpfsKv {
    pub closed spec fn spec_base(&self) -> Seq<char> {
        self.base@
    }

    /// A store under `runtime_dir`/ogurpchik.
    pub fn in_runtime_dir(runtime_dir: &str) -> (kv: TmpfsKv)
        ensures
            kv.spec_base() == spec_join(runtime_dir@, tmpfs_dir_name()),
    {
        TmpfsKv { base: join_path(runtime_dir, "ogurpchik") }
    }

    /// A store rooted exactly at `base`.
    pub fn at(base: String) -> (kv: TmpfsKv)
        ensures
            kv.spec_base() == base@,
    {
        TmpfsKv { base }
    }

    pub fn base(&self) -> (b: &str)
        ensures
            b@ == self.spec_base(),
    {
        self.base.as_str()
    }

    /// The file that holds `key`.
    pub fn full_path(&self, key: &str) -> (p: String)
        ensures
            p@ == spec_tmpfs_path(self.spec_base(), key@),
    {
        let n = key.unicode_len();
        let mut rel = String::new();
        let mut i: usize = 0;
        while i < n
            invariant
                n == key@.len(),
                i <= n,
                rel@ == spec_key_to_rel(key@.subrange(0, i as int)),
            decreases n - i,
        {
            let c = key.get_char(i);
            if c == '\\' {
                rel.append("/");
            } else {
                rel.append(key.substring_char(i, i + 1));
            }
            proof {
                reveal_strlit("/");
                assert(spec_key_to_rel(key@.subrange(0, i + 1)) =~= spec_key_to_rel(
                    key@.subrange(0, i as int),
                ).push(if c == '\\' { '/' } else { c }));
            }
            i = i + 1;
            assert(rel@ =~= spec_key_to_rel(key@.subrange(0, i as int)));
        }
        assert(key@.subrange(0, n as int) =~= key@);
        let m = rel.as_str().unicode_len();
        if m > 0 && rel.as_str().get_char(0) == '/' {
            rel
        } else {
            join_path(self.base.as_str(), rel.as_str())
        }
    }
}

// ---- topology assembly ----

/// Assembles the topology as server workers come up: once as many cores
/// have registered as were announced, the topology is handed out, once.
#[derive(Debug)]
pub struct TopologyCollector {
    expected: usize,
    transport_kind: String,
    codec_kind: String,
    endpoints: HashMap<usize, String>,
    delivered: bool,
}

impl TopologyCollector {
    pub closed spec fn spec_expected(&self) -> usize {
        self.expected
    }

    pub closed spec fn spec_transport(&self) -> Seq<char> {
        self.transport_kind@
    }

    pub closed spec fn spec_codec(&self) -> Seq<char> {
        self.codec_kind@
    }

    pub closed spec fn spec_endpoints(&self) -> Map<usize, String> {
        self.endpoints@
    }

    pub closed spec fn spec_delivered(&self) -> bool {
        self.delivered
    }

    pub fn new(transport_kind: String, codec_kind: String) -> (c: Self)
        ensures
            c.spec_expected() == 0,
            c.spec_transport() == transport_kind@,
            c.spec_codec() == codec_kind@,
            c.spec_endpoints() == Map::<usize, String>::empty(),
            !c.spec_delivered(),
    {
        TopologyCollector {
            expected: 0,
            transport_kind,
            codec_kind,
            endpoints: HashMap::new(),
            delivered: false,
        }
    }

    /// A collector with the same transport, codec and announced core count,
    /// but nothing registered and nothing delivered yet.
    pub fn fresh_copy(&self) -> (c: Self)
        ensures
            c.spec_expected() == self.spec_expected(),
            c.spec_transport() == self.spec_transport(),
            c.spec_codec() == self.spec_codec(),
            c.spec_endpoints() == Map::<usize, String>::empty(),
            !c.spec_delivered(),
    {
        TopologyCollector {
            expected: self.expected,
            transport_kind: self.transport_kind.clone(),
            codec_kind: self.codec_kind.clone(),
            endpoints: HashMap::new(),
            delivered: false,
        }
    }

    pub fn transport_name(&self) -> (s: &str)
        ensures
            s@ == self.spec_transport(),
    {
        self.transport_kind.as_str()
    }

    pub fn codec_name(&self) -> (s: &str)
        ensures
            s@ == self.spec_codec(),
    {
        self.codec_kind.as_str()
    }

    /// Announces how many cores will register.
    pub fn init_cores(&mut self, cores: usize)
        ensures
            final(self).spec_expected() == cores,
            final(self).spec_transport() == old(self).spec_transport(),
            final(self).spec_codec() == old(self).spec_codec(),
            final(self).spec_endpoints() == old(self).spec_endpoints(),
            final(self).spec_delivered() == old(self).spec_delivered(),
    {
        self.expected = cores;
    }

    /// Records the endpoint of core `core_id` (a later registration of the
    /// same core replaces the earlier one). Returns the topology the first
    /// time the announced number of cores have registered, and never again.
    pub fn register(&mut self, core_id: usize, endpoint: String) -> (t: Option<Topology>)
        ensures
            final(self).spec_expected() == old(self).spec_expected(),
            final(self).spec_transport() == old(self).spec_transport(),
            final(self).spec_codec() == old(self).spec_codec(),
            final(self).spec_endpoints() == old(self).spec_endpoints().insert(core_id, endpoint),
            (final(self).spec_endpoints(), final(self).spec_delivered(), t is Some) == spec_register(
                old(self).spec_expected(),
                old(self).spec_endpoints(),
                old(self).spec_delivered(),
                core_id,
                endpoint,
            ),
            ({
                let complete = !old(self).spec_delivered() && old(self).spec_expected() > 0
                    && final(self).spec_endpoints().len() == old(self).spec_expected();
                &&& final(self).spec_delivered() == (old(self).spec_delivered() || complete)
                &&& (t is Some <==> complete)
                &&& (t matches Some(top) ==> {
                    &&& top.transport_kind@ == old(self).spec_transport()
                    &&& top.codec_kind@ == old(self).spec_codec()
                    &&& top.map@ == final(self).spec_endpoints()
                })
            }),
    {
        self.endpoints.insert(core_id, endpoint);
        if !self.delivered && self.expected > 0 && self.endpoints.len() == self.expected {
            self.delivered = true;
            Some(
                Topology {
                    transport_kind: self.transport_kind.clone(),
                    codec_kind: self.codec_kind.clone(),
                    map: self.endpoints.clone(),
                },
            )
        } else {
            None
        }
    }
}

/// One registration: the endpoints recorded afterwards, whether the
/// topology has been handed out by then, and whether this registration
/// handed it out.
pub open spec fn spec_register(
    expected: usize,
    endpoints: Map<usize, String>,
    delivered: bool,
    core_id: usize,
    endpoint: String,
) -> (Map<usize, String>, bool, bool) {
    let recorded = endpoints.insert(core_id, endpoint);
    let complete = !delivered && expected > 0 && recorded.len() == expected;
    (recorded, delivered || complete, complete)
}

/// The state after a sequence of registrations on a fresh collector that
/// announced `expected` cores, and how many of them handed the topology out.
pub open spec fn spec_register_all(expected: usize, steps: Seq<(usize, String)>) -> (
    Map<usize, String>,
    bool,
    nat,
)
    decreases steps.len(),
{
    if steps.len() == 0 {
        (Map::empty(), false, 0)
    } else {
        let (endpoints, delivered, count) = spec_register_all(expected, steps.drop_last());
        let (next, now_delivered, handed) = spec_register(
            expected,
            endpoints,
            delivered,
            steps.last().0,
            steps.last().1,
        );
        (next, now_delivered, if handed { count + 1 } else { count })
    }
}

/// Over any sequence of registrations the topology is handed out at most
/// once, and it has been handed out exactly when, after some registration,
/// as many cores were recorded as were announced (none for zero cores).
pub proof fn law_topology_handed_out_once(expected: usize, steps: Seq<(usize, String)>)
    ensures
        ({
            let (_, delivered, count) = spec_register_all(expected, steps);
            &&& count <= 1
            &&& (count == 1 <==> delivered)
            &&& (delivered <==> exists|k: int|
                1 <= k <= steps.len() && expected > 0 && #[trigger] spec_register_all(
                    expected,
                    steps.take(k),
                ).0.len() == expected)
        }),
    decreases steps.len(),
{
    if steps.len() > 0 {
        let prefix = steps.drop_last();
        law_topology_handed_out_once(expected, prefix);
        let n = steps.len() as int;
        assert forall|k: int| 1 <= k < n implies #[trigger] steps.take(k) == prefix.take(k) by {
            assert(steps.take(k) =~= prefix.take(k));
        }
        assert(steps.take(n) =~= steps);
        let (endpoints, delivered, count) = spec_register_all(expected, steps);
        let (e0, d0, c0) = spec_register_all(expected, prefix);
        if delivered {
            if d0 {
                let k = choose|k: int|
                    1 <= k <= prefix.len() && expected > 0 && #[trigger] spec_register_all(
                        expected,
                        prefix.take(k),
                    ).0.len() == expected;
                assert(steps.take(k) == prefix.take(k));
            } else {
                assert(spec_register_all(expected, steps.take(n)).0.len() == expected);
            }
        }
        if exists|k: int|
            1 <= k <= steps.len() && expected > 0 && #[trigger] spec_register_all(
                expected,
                steps.take(k),
            ).0.len() == expected {
            let k = choose|k: int|
                1 <= k <= steps.len() && expected > 0 && #[trigger] spec_register_all(
                    expected,
                    steps.take(k),
                ).0.len() == expected;
            if k < n {
                assert(steps.take(k) == prefix.take(k));
                assert(d0);
            }
        }
    }
}

// ---- connecting to a topology ----

/// Why a client cannot connect to a topology.
#[derive(Debug, Clone, Copy, PartialEq, Eq, Structural)]
pub enum TopologyError {
    /// The topology was published for another transport.
    TransportMismatch,
    /// The topology was published for another codec.
    CodecMismatch,
    /// Cores are numbered `0..n`, but this one has no endpoint.
    MissingCore { core: usize },
}

/// The first core number from `from` up to the entry count that has no
/// endpoint.
pub open spec fn first_missing_core(map: Map<usize, String>, from: nat) -> Option<usize>
    decreases map.len() - from,
{
    if from >= map.len() {
        None
    } else if !map.contains_key(from as usize) {
        Some(from as usize)
    } else {
        first_missing_core(map, from + 1)
    }
}

/// The endpoints a client connects to, core by core, or why it cannot.
pub open spec fn spec_connector_endpoints(
    t_transport: Seq<char>,
    t_codec: Seq<char>,
    map: Map<usize, String>,
    transport: Seq<char>,
    codec: Seq<char>,
) -> Result<Seq<Seq<char>>, TopologyError> {
    if t_transport != transport {
        Err(TopologyError::TransportMismatch)
    } else if t_codec != codec {
        Err(TopologyError::CodecMismatch)
    } else if first_missing_core(map, 0) is Some {
        Err(TopologyError::MissingCore { core: first_missing_core(map, 0)->Some_0 })
    } else {
        Ok(Seq::new(map.len(), |i: int| map[i as usize]@))
    }
}

impl Topology {
    /// Checks the topology against the client's transport and codec, the
    /// transport first.
    pub fn check_kinds(&self, transport_kind: &str, codec_kind: &str) -> (r: Result<(), TopologyError>)
        ensures
            r == (if self.transport_kind@ != transport_kind@ {
                Err(TopologyError::TransportMismatch)
            } else if self.codec_kind@ != codec_kind@ {
                Err(TopologyError::CodecMismatch)
            } else {
                Ok(())
            }),
    {
        let want_transport = String::from_str(transport_kind);
        if !(self.transport_kind == want_transport) {
            return Err(TopologyError::TransportMismatch);
        }
        let want_codec = String::from_str(codec_kind);
        if !(self.codec_kind == want_codec) {
            return Err(TopologyError::CodecMismatch);
        }
        Ok(())
    }

    /// The endpoint of core `core`, or `MissingCore` when it has none; for
    /// callers that build each core's connector as soon as its endpoint is
    /// known.
    pub fn core_endpoint(&self, core: usize) -> (r: Result<String, TopologyError>)
        ensures
            match r {
                Ok(e) => self.map@.contains_key(core) && e@ == self.map@[core]@,
                Err(err) => !self.map@.contains_key(core) && err == (TopologyError::MissingCore {
                    core,
                }),
            },
    {
        match self.map.get(&core) {
            Some(e) => Ok(e.clone()),
            None => Err(TopologyError::MissingCore { core }),
        }
    }
}

impl Topology {
    /// Checks the topology against the client's transport and codec and
    /// lists the endpoint of each core `0..n`, `n` the number of entries.
    pub fn connector_endpoints(&self, transport_kind: &str, codec_kind: &str) -> (r: Result<
        Vec<String>,
        TopologyError,
    >)
        ensures
            match r {
                Ok(v) => spec_connector_endpoints(
                    self.transport_kind@,
                    self.codec_kind@,
                    self.map@,
                    transport_kind@,
                    codec_kind@,
                ) == Ok::<Seq<Seq<char>>, TopologyError>(
                    Seq::new(v@.len(), |i: int| v@[i]@),
                ),
                Err(e) => spec_connector_endpoints(
                    self.transport_kind@,
                    self.codec_kind@,
                    self.map@,
                    transport_kind@,
                    codec_kind@,
                ) == Err::<Seq<Seq<char>>, TopologyError>(e),
            },
    {
        let want_transport = String::from_str(transport_kind);
        if !(self.transport_kind == want_transport) {
            return Err(TopologyError::TransportMismatch);
        }
        let want_codec = String::from_str(codec_kind);
        if !(self.codec_kind == want_codec) {
            return Err(TopologyError::CodecMismatch);
        }
        let n = self.map.len();
        let mut out: Vec<String> = Vec::new();
        let mut i: usize = 0;
        while i < n
            invariant
                n == self.map@.len(),
                i <= n,
                out@.len() == i,
                self.transport_kind@ == transport_kind@,
                self.codec_kind@ == codec_kind@,
                forall|j: usize| 0 <= j < i ==> #[trigger] self.map@.contains_key(j),
                first_missing_core(self.map@, 0) == first_missing_core(self.map@, i as nat),
                forall|j: int| 0 <= j < i ==> out@[j]@ == self.map@[j as usize]@,
            decreases n - i,
        {
            match self.map.get(&i) {
                Some(e) => {
                    out.push(e.clone());
                },
                None => {
                    assert(first_missing_core(self.map@, i as nat) == Some(i));
                    return Err(TopologyError::MissingCore { core: i });
                },
            }
            i = i + 1;
        }
        assert(first_missing_core(self.map@, i as nat) is None);
        assert(Seq::new(out@.len(), |j: int| out@[j]@) =~= Seq::new(
            self.map@.len(),
            |j: int| self.map@[j as usize]@,
        ));
        Ok(out)
    }
}

/// What keeps a server from starting against its registry.
#[derive(Debug, Clone, Copy, PartialEq, Eq, Structural)]
pub enum ServerSetupError {
    TransportNotSet,
    RegistryNotSet,
    RegistryTransportMismatch,
    RegistryCodecMismatch,
}

/// A server starts only with a transport and a registry that agree with
/// it on transport and codec; the checks run in this order.
pub fn check_server_setup(
    transport_kind: Option<&str>,
    registry: Option<&TopologyCollector>,
    codec_kind: &str,
) -> (r: Result<(), ServerSetupError>)
    ensures
        r == (match transport_kind {
            None => Err(ServerSetupError::TransportNotSet),
            Some(t) => match registry {
                None => Err(ServerSetupError::RegistryNotSet),
                Some(reg) => if reg.spec_transport() != t@ {
                    Err(ServerSetupError::RegistryTransportMismatch)
                } else if reg.spec_codec() != codec_kind@ {
                    Err(ServerSetupError::RegistryCodecMismatch)
                } else {
                    Ok(())
                },
            },
        }),
{
    let t = match transport_kind {
        None => {
            return Err(ServerSetupError::TransportNotSet);
        },
        Some(t) => t,
    };
    let reg = match registry {
        None => {
            return Err(ServerSetupError::RegistryNotSet);
        },
        Some(reg) => reg,
    };
    let reg_transport = String::from_str(reg.transport_name());
    let want_transport = String::from_str(t);
    if !(reg_transport == want_transport) {
        return Err(ServerSetupError::RegistryTransportMismatch);
    }
    let reg_codec = String::from_str(reg.codec_name());
    let want_codec = String::from_str(codec_kind);
    if !(reg_codec == want_codec) {
        return Err(ServerSetupError::RegistryCodecMismatch);
    }
    Ok(())
}

} // verus!
