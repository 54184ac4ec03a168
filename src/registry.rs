//! Bookkeeping of the preview servers that run on local ports, and the
//! decisions taken when one is started, stopped or looked up.

use vstd::prelude::*;
use vstd::string::*;
use std::collections::HashMap;
use crate::error::BundleError;
use crate::text::{decimal, decimal_of};

verus! {

broadcast use vstd::std_specs::hash::group_hash_axioms;

/// The lowest port that the free-port search probes.
pub const PORT_SEARCH_FIRST: u16 = 8000;

/// The port just past the range that the free-port search probes.
pub const PORT_SEARCH_END: u16 = 9000;

/// Ports mapped to the process identifiers of the preview servers started on
/// them. A port is present from a successful start until its stop.
pub struct ServerRegistry {
    servers: HashMap<u16, u32>,
}

/// Registry contents and outcome after `pid` asks for `port`.
pub open spec fn reserve_outcome(m: Map<u16, u32>, port: u16, pid: u32) -> (Map<u16, u32>, Result<(), BundleError>) {
    if m.contains_key(port) {
        (m, Err(BundleError::PortInUse(port)))
    } else {
        (m.insert(port, pid), Ok(()))
    }
}

/// Registry contents and outcome after the server on `port` is stopped.
pub open spec fn stop_outcome(m: Map<u16, u32>, port: u16) -> (Map<u16, u32>, Result<u32, BundleError>) {
    if m.contains_key(port) {
        (m.remove(port), Ok(m[port]))
    } else {
        (m, Err(BundleError::NotFound(port)))
    }
}

/// Outcome of the checks that precede starting a server.
pub open spec fn start_check(m: Map<u16, u32>, port: u16, path_exists: bool, runtime_ok: bool) -> Result<(), BundleError> {
    if m.contains_key(port) {
        Err(BundleError::PortInUse(port))
    } else if !path_exists {
        Err(BundleError::InvalidPath)
    } else if !runtime_ok {
        Err(BundleError::RuntimeUnavailable)
    } else {
        Ok(())
    }
}

impl View for ServerRegistry {
    type V = Map<u16, u32>;

    closed spec fn view(&self) -> Map<u16, u32> {
        self.servers@
    }
}

impl ServerRegistry {
    /// An empty registry.
    pub fn new() -> (r: ServerRegistry)
        ensures
            r@ == Map::<u16, u32>::empty(),
    {
        ServerRegistry { servers: HashMap::new() }
    }

    /// Whether a server is recorded on `port`.
    pub fn contains(&self, port: u16) -> (r: bool)
        ensures
            r == self@.contains_key(port),
    {
        self.servers.contains_key(&port)
    }

    /// The process recorded on `port`, if any.
    pub fn pid_of(&self, port: u16) -> (r: Option<u32>)
        ensures
            r == (if self@.contains_key(port) { Some(self@[port]) } else { None::<u32> }),
    {
        match self.servers.get(&port) {
            Some(p) => Some(*p),
            None => None,
        }
    }

    /// Number of recorded servers.
    pub fn len(&self) -> (r: usize)
        ensures
            r == self@.len(),
    {
        self.servers.len()
    }

    /// Records `pid` on `port`, unless the port is already taken.
    pub fn reserve(&mut self, port: u16, pid: u32) -> (r: Result<(), BundleError>)
        ensures
            (final(self)@, r) == reserve_outcome(old(self)@, port, pid),
    {
        if self.servers.contains_key(&port) {
            Err(BundleError::PortInUse(port))
        } else {
            self.servers.insert(port, pid);
            Ok(())
        }
    }

    /// Removes the entry of `port` and hands back its process, if there was one.
    pub fn release(&mut self, port: u16) -> (r: Option<u32>)
        ensures
            final(self)@ == old(self)@.remove(port),
            r == (if old(self)@.contains_key(port) { Some(old(self)@[port]) } else { None::<u32> }),
    {
        self.servers.remove(&port)
    }

    /// The checks made before a server is started on `port`: the port must be
    /// free, the document root must exist and the interpreter must answer.
    pub fn check_start(&self, port: u16, path_exists: bool, runtime_ok: bool) -> (r: Result<(), BundleError>)
        ensures
            r == start_check(self@, port, path_exists, runtime_ok),
    {
        if self.servers.contains_key(&port) {
            Err(BundleError::PortInUse(port))
        } else if !path_exists {
            Err(BundleError::InvalidPath)
        } else if !runtime_ok {
            Err(BundleError::RuntimeUnavailable)
        } else {
            Ok(())
        }
    }

    /// Records the outcome of spawning a server on `port`: a spawned process
    /// is recorded, a failed spawn leaves the registry as it was.
    pub fn record_spawn(&mut self, port: u16, spawned: Result<u32, String>) -> (r: Result<u32, BundleError>)
        ensures
            match spawned {
                Ok(pid) => {
                    let (m, o) = reserve_outcome(old(self)@, port, pid);
                    &&& final(self)@ == m
                    &&& r == match o {
                        Ok(_) => Ok::<u32, BundleError>(pid),
                        Err(e) => Err(e),
                    }
                },
                Err(msg) => final(self)@ == old(self)@ && r == Err::<u32, BundleError>(BundleError::SpawnFailed(msg)),
            },
    {
        match spawned {
            Ok(pid) => match self.reserve(port, pid) {
                Ok(()) => Ok(pid),
                Err(e) => Err(e),
            },
            Err(msg) => Err(BundleError::SpawnFailed(msg)),
        }
    }

    /// Stops the bookkeeping of the server on `port`: its entry is removed and
    /// its process handed back to be terminated.
    pub fn stop_server(&mut self, port: u16) -> (r: Result<u32, BundleError>)
        ensures
            (final(self)@, r) == stop_outcome(old(self)@, port),
    {
        match self.servers.remove(&port) {
            Some(pid) => Ok(pid),
            None => Err(BundleError::NotFound(port)),
        }
    }

    /// Whether a server is reported as running on `port`: registry membership
    /// only, with no probe of the process.
    pub fn server_status(&self, port: u16) -> (r: bool)
        ensures
            r == self@.contains_key(port),
    {
        self.contains(port)
    }
}

/// The interpreter arguments that serve `root` on `localhost:<port>`.
pub open spec fn server_args_of(port: u16, root: Seq<char>) -> Seq<Seq<char>> {
    seq!["-S"@, "localhost:"@ + decimal_of(port as nat), "-t"@, root]
}

/// Arguments for the interpreter's built-in server on `localhost:<port>`
/// with `project_path` as document root.
pub fn server_args(port: u16, project_path: &str) -> (r: Vec<String>)
    ensures
        r@.map_values(|s: String| s@) == server_args_of(port, project_path@),
{
    let mut host = String::from_str("localhost:");
    let digits = decimal(port as u32);
    host.append(digits.as_str());
    let mut r: Vec<String> = Vec::new();
    r.push(String::from_str("-S"));
    r.push(host);
    r.push(String::from_str("-t"));
    r.push(String::from_str(project_path));
    assert(r@.map_values(|s: String| s@) =~= server_args_of(port, project_path@));
    r
}

/// Finds the first port of the search range that `can_bind` accepts, probing
/// in ascending order and stopping at the first success.
pub fn find_available_port<F: Fn(u16) -> bool>(can_bind: F) -> (r: Result<u16, BundleError>)
    requires
        forall|p: u16| can_bind.requires((p,)),
    ensures
        match r {
            Ok(p) => {
                &&& PORT_SEARCH_FIRST <= p < PORT_SEARCH_END
                &&& can_bind.ensures((p,), true)
                &&& forall|q: u16| PORT_SEARCH_FIRST <= q < p ==> can_bind.ensures((q,), false)
            },
            Err(e) => {
                &&& e == BundleError::NoPortAvailable
                &&& forall|q: u16| PORT_SEARCH_FIRST <= q < PORT_SEARCH_END ==> can_bind.ensures((q,), false)
            },
        },
{
    let mut port: u16 = PORT_SEARCH_FIRST;
    while port < PORT_SEARCH_END
        invariant
            PORT_SEARCH_FIRST <= port <= PORT_SEARCH_END,
            forall|p: u16| can_bind.requires((p,)),
            forall|q: u16| PORT_SEARCH_FIRST <= q < port ==> can_bind.ensures((q,), false),
        decreases PORT_SEARCH_END - port,
    {
        if can_bind(port) {
            return Ok(port);
        }
        port = port + 1;
    }
    Err(BundleError::NoPortAvailable)
}

/// Of two reservations of one free port, the first succeeds and the second
/// is refused with `PortInUse`; afterwards the port maps to the first
/// process alone.
pub proof fn lemma_one_reservation_wins(m: Map<u16, u32>, port: u16, first: u32, second: u32)
    requires
        !m.contains_key(port),
    ensures
        reserve_outcome(m, port, first).1 is Ok,
        reserve_outcome(reserve_outcome(m, port, first).0, port, second).1 == Err::<(), BundleError>(
            BundleError::PortInUse(port),
        ),
        reserve_outcome(reserve_outcome(m, port, first).0, port, second).0 == m.insert(port, first),
{
}

/// After a port is released it is no longer recorded, and stopping it again
/// is refused with `NotFound`.
pub proof fn lemma_stop_then_status(m: Map<u16, u32>, port: u16)
    requires
        m.contains_key(port),
    ensures
        stop_outcome(m, port).1 == Ok::<u32, BundleError>(m[port]),
        !stop_outcome(m, port).0.contains_key(port),
        stop_outcome(stop_outcome(m, port).0, port).1 == Err::<u32, BundleError>(BundleError::NotFound(port)),
{
}

} // verus!
