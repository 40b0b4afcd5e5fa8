//! Service discovery by convention: both sides derive the same address from
//! the same service name. On Windows a named pipe `\\.\pipe\<app>.<service>`;
//! on Linux a unix socket `<runtime dir>/<service>.sock`, where the runtime
//! directory is `$XDG_RUNTIME_DIR/<app>` or `/tmp/<app>-<uid>`; between
//! host and VM, vsock with a per-service port.
//!
//! Readiness is equally conventional: the service is ready when connecting
//! succeeds, so a client retries with a doubling backoff.

use vstd::prelude::*;
use crate::error::EndpointError;
use crate::handshake::spec_decimal;

verus! {

/// A logical vsock destination: a numeric CID (Linux) or a VM GUID
/// (Windows), the GUID held in its hyphenated text form.
#[derive(Debug, Clone)]
pub enum VsockTarget {
    Cid(u32),
    Guid(String),
}

/// A concrete address a listener binds or a connection connects to.
#[derive(Debug, Clone)]
pub enum Endpoint {
    Vsock { target: VsockTarget, port: u32 },
    /// Path of a unix-domain socket.
    Uds(String),
    /// Full pipe path (`\\.\pipe\...`).
    Npipe(String),
    /// A TCP socket address in its text form (`host:port`).
    Tcp(String),
}

/// Where a service's conventional endpoint lives on this platform.
#[derive(Debug, Clone)]
pub enum ServiceConvention {
    /// Windows: a named pipe.
    NamedPipe,
    /// Unix: a socket in `runtime_dir`, the per-application runtime
    /// directory (already created by the caller).
    UnixSocket { runtime_dir: String },
}

// ---- names ----

pub open spec fn allowed_name_char(c: char) -> bool {
    ('0' <= c && c <= '9') || ('a' <= c && c <= 'z') || ('A' <= c && c <= 'Z') || c == '-' || c
        == '_'
}

/// A name is safe to embed in a path or pipe name: 1 to 64 characters, each
/// an ASCII letter, digit, `-` or `_`.
pub open spec fn spec_valid_name(s: Seq<char>) -> bool {
    &&& 0 < s.len() <= 64
    &&& forall|i: int| 0 <= i < s.len() ==> allowed_name_char(#[trigger] s[i])
}

fn allowed_char(c: char) -> (b: bool)
    ensures
        b == allowed_name_char(c),
{
    ('0' <= c && c <= '9') || ('a' <= c && c <= 'z') || ('A' <= c && c <= 'Z') || c == '-' || c
        == '_'
}

/// Accepts `name` when [`spec_valid_name`] holds, else `InvalidServiceName`.
/// Invalid names are rejected rather than sanitized: a silent rename would
/// make the two sides derive different addresses.
pub fn validate_name(name: &str) -> (r: Result<(), EndpointError>)
    ensures
        r is Ok <==> spec_valid_name(name@),
        r matches Err(e) ==> e == EndpointError::InvalidServiceName,
{
    let n = name.unicode_len();
    if n == 0 || n > 64 {
        return Err(EndpointError::InvalidServiceName);
    }
    let mut i: usize = 0;
    while i < n
        invariant
            n == name@.len(),
            i <= n,
            forall|j: int| 0 <= j < i ==> allowed_name_char(#[trigger] name@[j]),
        decreases n - i,
    {
        let c = name.get_char(i);
        if !allowed_char(c) {
            return Err(EndpointError::InvalidServiceName);
        }
        i = i + 1;
    }
    Ok(())
}

/// Joins a path component onto a directory with one `/` between them.
pub open spec fn spec_join(dir: Seq<char>, name: Seq<char>) -> Seq<char> {
    if dir.len() > 0 && dir.last() == '/' {
        dir + name
    } else {
        dir + "/"@ + name
    }
}

/// The conventional endpoint of service `service` of application `app`.
pub open spec fn spec_for_service(app: Seq<char>, service: Seq<char>, c: ServiceConvention) -> Seq<
    char,
> {
    match c {
        ServiceConvention::NamedPipe => "\\\\.\\pipe\\"@ + app + "."@ + service,
        ServiceConvention::UnixSocket { runtime_dir } => spec_join(
            runtime_dir@,
            service + ".sock"@,
        ),
    }
}

impl Endpoint {
    /// The conventional endpoint for a service of application `app`:
    /// `InvalidServiceName` unless both names pass [`validate_name`];
    /// otherwise a named pipe or a unix socket, as `convention` says.
    pub fn for_service(app: &str, service: &str, convention: &ServiceConvention) -> (r: Result<
        Endpoint,
        EndpointError,
    >)
        ensures
            !(spec_valid_name(app@) && spec_valid_name(service@)) ==> r == Err::<
                Endpoint,
                EndpointError,
            >(EndpointError::InvalidServiceName),
            spec_valid_name(app@) && spec_valid_name(service@) ==> match r {
                Ok(Endpoint::Npipe(p)) => convention is NamedPipe && p@ == spec_for_service(
                    app@,
                    service@,
                    *convention,
                ),
                Ok(Endpoint::Uds(p)) => convention is UnixSocket && p@ == spec_for_service(
                    app@,
                    service@,
                    *convention,
                ),
                _ => false,
            },
    {
        validate_name(app)?;
        validate_name(service)?;
        match convention {
            ServiceConvention::NamedPipe => {
                let mut p = String::from_str("\\\\.\\pipe\\");
                p.append(app);
                p.append(".");
                p.append(service);
                Ok(Endpoint::Npipe(p))
            },
            ServiceConvention::UnixSocket { runtime_dir } => {
                let mut file = String::from_str(service);
                file.append(".sock");
                Ok(Endpoint::Uds(join_path(runtime_dir.as_str(), file.as_str())))
            },
        }
    }

    /// Guest → host over vsock: CID 2 means "the host" on both platforms.
    pub fn vsock_to_host(port: u32) -> (e: Endpoint)
        ensures
            e matches Endpoint::Vsock { target: VsockTarget::Cid(cid), port: p } && cid == 2 && p
                == port,
    {
        Endpoint::Vsock { target: VsockTarget::Cid(2), port }
    }

    /// The transport kind, as logs name it.
    pub fn kind(&self) -> (k: &'static str)
        ensures
            k@ == match self {
                Endpoint::Vsock { .. } => "vsock"@,
                Endpoint::Uds(_) => "uds"@,
                Endpoint::Npipe(_) => "npipe"@,
                Endpoint::Tcp(_) => "tcp"@,
            },
    {
        match self {
            Endpoint::Vsock { .. } => "vsock",
            Endpoint::Uds(_) => "uds",
            Endpoint::Npipe(_) => "npipe",
            Endpoint::Tcp(_) => "tcp",
        }
    }

    /// The display text: the kind, a space, the address.
    pub fn describe(&self) -> (s: String)
        ensures
            s@ == spec_describe(*self),
    {
        match self {
            Endpoint::Vsock { target, port } => {
                let mut s = String::from_str("vsock ");
                match target {
                    VsockTarget::Cid(cid) => {
                        s.append("Cid(");
                        let d = decimal_string(*cid as u64);
                        s.append(d.as_str());
                    },
                    VsockTarget::Guid(g) => {
                        s.append("Guid(");
                        s.append(g.as_str());
                    },
                }
                s.append("):");
                let d = decimal_string(*port as u64);
                s.append(d.as_str());
                s
            },
            Endpoint::Uds(p) => {
                let mut s = String::from_str("uds ");
                s.append(p.as_str());
                s
            },
            Endpoint::Npipe(p) => {
                let mut s = String::from_str("npipe ");
                s.append(p.as_str());
                s
            },
            Endpoint::Tcp(a) => {
                let mut s = String::from_str("tcp ");
                s.append(a.as_str());
                s
            },
        }
    }
}

/// Decimal digits of `n` as characters.
pub open spec fn spec_decimal_chars(n: nat) -> Seq<char> {
    spec_decimal(n).map_values(|b: u8| b as char)
}

pub open spec fn spec_describe(e: Endpoint) -> Seq<char> {
    match e {
        Endpoint::Vsock { target, port } => "vsock "@ + match target {
            VsockTarget::Cid(cid) => "Cid("@ + spec_decimal_chars(cid as nat),
            VsockTarget::Guid(g) => "Guid("@ + g@,
        } + "):"@ + spec_decimal_chars(port as nat),
        Endpoint::Uds(p) => "uds "@ + p@,
        Endpoint::Npipe(p) => "npipe "@ + p@,
        Endpoint::Tcp(a) => "tcp "@ + a@,
    }
}

fn digit_str(d: u64) -> (s: &'static str)
    requires
        d < 10,
    ensures
        s@ == seq![(48 + d) as char],
{
    proof {
        reveal_strlit("0");
        reveal_strlit("1");
        reveal_strlit("2");
        reveal_strlit("3");
        reveal_strlit("4");
        reveal_strlit("5");
        reveal_strlit("6");
        reveal_strlit("7");
        reveal_strlit("8");
        reveal_strlit("9");
    }
    let s = if d == 0 {
        "0"
    } else if d == 1 {
        "1"
    } else if d == 2 {
        "2"
    } else if d == 3 {
        "3"
    } else if d == 4 {
        "4"
    } else if d == 5 {
        "5"
    } else if d == 6 {
        "6"
    } else if d == 7 {
        "7"
    } else if d == 8 {
        "8"
    } else {
        "9"
    };
    assert(s@ =~= seq![(48 + d) as char]);
    s
}

proof fn lemma_decimal_chars_push(n: nat)
    requires
        n >= 10,
    ensures
        spec_decimal_chars(n) == spec_decimal_chars(n / 10).push((48 + n % 10) as u8 as char),
{
    assert(spec_decimal_chars(n) =~= spec_decimal_chars(n / 10).push(
        (48 + n % 10) as u8 as char,
    ));
}

/// `n` in decimal.
pub fn decimal_string(n: u64) -> (s: String)
    ensures
        s@ == spec_decimal_chars(n as nat),
    decreases n,
{
    if n < 10 {
        let s = String::from_str(digit_str(n));
        assert(s@ =~= spec_decimal_chars(n as nat));
        s
    } else {
        let mut s = decimal_string(n / 10);
        s.append(digit_str(n % 10));
        proof {
            lemma_decimal_chars_push(n as nat);
        }
        assert(s@ =~= spec_decimal_chars(n as nat));
        s
    }
}

/// Joins `name` onto directory `dir`, see [`spec_join`].
pub fn join_path(dir: &str, name: &str) -> (p: String)
    ensures
        p@ == spec_join(dir@, name@),
{
    let n = dir.unicode_len();
    let mut p = String::from_str(dir);
    if n > 0 && dir.get_char(n - 1) == '/' {
        p.append(name);
    } else {
        p.append("/");
        p.append(name);
    }
    p
}

// ---- named pipes ----

pub open spec fn pipe_prefix() -> Seq<char> {
    seq!['\\', '\\', '.', '\\', 'p', 'i', 'p', 'e', '\\']
}

pub open spec fn trim_leading_backslashes(s: Seq<char>) -> Seq<char>
    decreases s.len(),
{
    if s.len() > 0 && s[0] == '\\' {
        trim_leading_backslashes(s.drop_first())
    } else {
        s
    }
}

/// A full pipe path: kept as given when it already starts with
/// `\\.\pipe\`; otherwise that prefix, then the name without its leading
/// backslashes.
pub open spec fn spec_pipe_path(p: Seq<char>) -> Seq<char> {
    if p.len() >= 9 && p.subrange(0, 9) == pipe_prefix() {
        p
    } else {
        pipe_prefix() + trim_leading_backslashes(p)
    }
}

#[derive(Debug, Clone)]
pub struct NamedPipePath(String);

proof fn lemma_trim_skip(s: Seq<char>, k: int)
    requires
        0 <= k <= s.len(),
        forall|j: int| 0 <= j < k ==> s[j] == '\\',
    ensures
        trim_leading_backslashes(s) == trim_leading_backslashes(s.subrange(k, s.len() as int)),
    decreases k,
{
    if k > 0 {
        lemma_trim_skip(s.drop_first(), k - 1);
        assert(s.drop_first().subrange(k - 1, s.drop_first().len() as int) =~= s.subrange(
            k,
            s.len() as int,
        ));
    } else {
        assert(s.subrange(0, s.len() as int) =~= s);
    }
}

impl NamedPipePath {
    pub closed spec fn spec_path(&self) -> Seq<char> {
        self.0@
    }

    pub fn new(path: String) -> (p: NamedPipePath)
        ensures
            p.spec_path() == spec_pipe_path(path@),
    {
        proof {
            reveal_strlit("\\\\.\\pipe\\");
        }
        let n = path.unicode_len();
        let mut has_prefix = n >= 9;
        let mut i: usize = 0;
        let prefix = "\\\\.\\pipe\\";
        while i < 9 && has_prefix
            invariant
                n == path@.len(),
                prefix@ == pipe_prefix(),
                has_prefix ==> n >= 9,
                i <= 9,
                has_prefix ==> forall|j: int| 0 <= j < i ==> path@[j] == pipe_prefix()[j],
                !has_prefix ==> !(n >= 9 && path@.subrange(0, 9) == pipe_prefix()),
            decreases 9 - i,
        {
            if path.as_str().get_char(i) != prefix.get_char(i) {
                has_prefix = false;
                assert(path@.subrange(0, 9)[i as int] != pipe_prefix()[i as int]);
            }
            i = i + 1;
        }
        if has_prefix {
            assert(path@.subrange(0, 9) =~= pipe_prefix());
            return NamedPipePath(path);
        }
        let mut k: usize = 0;
        while k < n && path.as_str().get_char(k) == '\\'
            invariant
                n == path@.len(),
                k <= n,
                forall|j: int| 0 <= j < k ==> path@[j] == '\\',
            decreases n - k,
        {
            k = k + 1;
        }
        proof {
            lemma_trim_skip(path@, k as int);
            let rest = path@.subrange(k as int, n as int);
            assert(!(rest.len() > 0 && rest[0] == '\\'));
        }
        let mut p = String::from_str(prefix);
        p.append(path.as_str().substring_char(k, n));
        NamedPipePath(p)
    }

    /// The full pipe path.
    pub fn as_str(&self) -> (s: &str)
        ensures
            s@ == self.spec_path(),
    {
        self.0.as_str()
    }
}

/// A unix socket lies directly in the runtime directory it is given and
/// is named after the service alone: the path starts with the directory,
/// ends with `/<service>.sock`, adds at most one separator, and is the same
/// whatever the application's name.
pub proof fn law_socket_in_runtime_dir(app: Seq<char>, other_app: Seq<char>, service: Seq<char>, runtime_dir: String)
    ensures
        ({
            let c = ServiceConvention::UnixSocket { runtime_dir };
            let p = spec_for_service(app, service, c);
            let tail = service + ".sock"@;
            &&& p == spec_for_service(other_app, service, c)
            &&& p.subrange(0, runtime_dir@.len() as int) == runtime_dir@
            &&& p.len() <= runtime_dir@.len() + 1 + tail.len()
            &&& p.len() >= tail.len() + 1
            &&& p.subrange(p.len() - tail.len(), p.len() as int) == tail
            &&& p[p.len() - tail.len() - 1] == '/'
        }),
{
    reveal_strlit("/");
    reveal_strlit(".sock");
    let dir = runtime_dir@;
    let c = ServiceConvention::UnixSocket { runtime_dir };
    let p = spec_for_service(app, service, c);
    let tail = service + ".sock"@;
    if dir.len() > 0 && dir.last() == '/' {
        assert(p =~= dir + tail);
        assert(p.subrange(0, dir.len() as int) =~= dir);
        assert(p.subrange(p.len() - tail.len(), p.len() as int) =~= tail);
        assert(p[p.len() - tail.len() - 1] == dir[dir.len() - 1]);
    } else {
        assert(p =~= dir + "/"@ + tail);
        assert(p.subrange(0, dir.len() as int) =~= dir);
        assert(p.subrange(p.len() - tail.len(), p.len() as int) =~= tail);
    }
}

// ---- readiness ----

/// The first pause between connection attempts.
pub const CONNECT_INITIAL_DELAY_NS: u128 = 50_000_000;
/// The longest pause between connection attempts.
pub const CONNECT_MAX_DELAY_NS: u128 = 1_000_000_000;

/// What to do after a failed connection attempt.
#[derive(Debug, Clone, Copy, PartialEq, Eq, Structural)]
pub enum RetryDecision {
    /// The next pause would reach the deadline: report the failure.
    GiveUp,
    /// Sleep `delay_ns`, try again, and pause `next_delay_ns` after that.
    Retry { delay_ns: u128, next_delay_ns: u128 },
}

/// The decision after a failed attempt, `elapsed_ns` into a wait bounded by
/// `give_up_after_ns`, with `delay_ns` the pause planned next: give up when
/// `elapsed + delay >= give_up_after`; else pause and double the next pause,
/// capped at one second.
pub open spec fn spec_retry(elapsed_ns: u128, delay_ns: u128, give_up_after_ns: u128) -> RetryDecision {
    if elapsed_ns + delay_ns >= give_up_after_ns {
        RetryDecision::GiveUp
    } else {
        RetryDecision::Retry {
            delay_ns,
            next_delay_ns: if 2 * delay_ns <= CONNECT_MAX_DELAY_NS {
                (2 * delay_ns) as u128
            } else {
                CONNECT_MAX_DELAY_NS
            },
        }
    }
}

pub fn connect_retry_decision(elapsed_ns: u128, delay_ns: u128, give_up_after_ns: u128) -> (d:
    RetryDecision)
    ensures
        d == spec_retry(elapsed_ns, delay_ns, give_up_after_ns),
{
    if elapsed_ns >= give_up_after_ns || delay_ns >= give_up_after_ns - elapsed_ns {
        RetryDecision::GiveUp
    } else {
        let next = if delay_ns <= CONNECT_MAX_DELAY_NS / 2 {
            2 * delay_ns
        } else {
            CONNECT_MAX_DELAY_NS
        };
        RetryDecision::Retry { delay_ns, next_delay_ns: next }
    }
}

/// Pauses grow and never pass one second: starting from the initial pause,
/// every planned pause stays within `[initial, 1s]` and never shrinks.
pub proof fn law_backoff_is_bounded(elapsed_ns: u128, delay_ns: u128, give_up_after_ns: u128)
    requires
        CONNECT_INITIAL_DELAY_NS <= delay_ns <= CONNECT_MAX_DELAY_NS,
    ensures
        spec_retry(elapsed_ns, delay_ns, give_up_after_ns) matches RetryDecision::Retry {
            delay_ns: d,
            next_delay_ns: nd,
        } ==> d == delay_ns && delay_ns <= nd <= CONNECT_MAX_DELAY_NS,
{
}

/// The next pause is the current one doubled, capped at one second: from
/// the initial 50 ms the pauses run 100, 200, 400, 800 ms, then 1 s on.
pub proof fn law_backoff_doubles(elapsed_ns: u128, delay_ns: u128, give_up_after_ns: u128)
    requires
        delay_ns <= 1_000_000_000,
    ensures
        spec_retry(elapsed_ns, delay_ns, give_up_after_ns) matches RetryDecision::Retry {
            delay_ns: d,
            next_delay_ns: nd,
        } ==> {
            &&& d == delay_ns
            &&& 2 * delay_ns <= 1_000_000_000 ==> nd == 2 * delay_ns
            &&& 2 * delay_ns > 1_000_000_000 ==> nd == 1_000_000_000
        },
        elapsed_ns + delay_ns < give_up_after_ns ==> spec_retry(
            elapsed_ns,
            delay_ns,
            give_up_after_ns,
        ) is Retry,
{
}

/// The wait never overruns its deadline: a retry is only planned when the
/// pause ends before `give_up_after`.
pub proof fn law_retry_stays_before_deadline(elapsed_ns: u128, delay_ns: u128, give_up_after_ns: u128)
    ensures
        spec_retry(elapsed_ns, delay_ns, give_up_after_ns) is Retry ==> elapsed_ns + delay_ns
            < give_up_after_ns,
{
}

} // verus!
