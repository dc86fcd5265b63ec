//! Choosing the backend server a player is connected to, and the life of the link to it.

use crate::config::Server;
use crate::text::str_eq;
use vstd::prelude::*;

verus! {

/// Why choosing or using a backend server failed.
#[derive(Debug)]
pub enum ServerHandleError {
    /// A name in the priority list names no configured server.
    UnresolvedServer(String),
    /// No server in the priority list accepted the player.
    NoServerReachable,
    /// A server asked for by name is not configured.
    UnknownServer(String),
    /// The link to the server is already running.
    AlreadySpinning,
    /// The link to the server is not running.
    NotSpinning,
}

/// The server that a name resolves to: the last configured server with that name (a later
/// entry replaces an earlier one).
pub open spec fn spec_find_server(servers: Seq<Server>, name: Seq<char>) -> Option<int>
    decreases servers.len(),
{
    if servers.len() == 0 {
        None
    } else if servers.last().name@ == name {
        Some(servers.len() - 1)
    } else {
        spec_find_server(servers.drop_last(), name)
    }
}

/// Looks a server up by name.
pub fn find_server(servers: &Vec<Server>, name: &str) -> (r: Option<usize>)
    ensures
        match r {
            Some(i) => spec_find_server(servers@, name@) == Some(i as int),
            None => spec_find_server(servers@, name@) is None,
        },
        r matches Some(i) ==> i < servers@.len() && servers@[i as int].name@ == name@,
{
    let mut i = servers.len();
    assert(servers@.subrange(0, i as int) == servers@);
    while i > 0
        invariant
            i <= servers@.len(),
            spec_find_server(servers@, name@) == spec_find_server(servers@.subrange(0, i as int), name@),
        decreases i,
    {
        proof {
            assert(servers@.subrange(0, i as int).drop_last() == servers@.subrange(0, i - 1));
            assert(servers@.subrange(0, i as int).last() == servers@[i - 1]);
        }
        if str_eq(servers[i - 1].name.as_str(), name) {
            return Some(i - 1);
        }
        i = i - 1;
    }
    None
}

/// The next step of connecting a player at the start: try the server named at position
/// `attempt` of the priority list (earlier ones have refused the player).
pub enum InitStep {
    /// Log in to the configured server at this index.
    Connect(usize),
    /// Give up.
    Fail(ServerHandleError),
}

/// Which step comes at position `attempt`: the server the name there resolves to, an error
/// for a name that resolves to nothing, and when the list is exhausted, the end.
pub open spec fn spec_init_step(priorities: Seq<String>, servers: Seq<Server>, attempt: nat) -> Result<int, Option<Seq<char>>> {
    if attempt >= priorities.len() {
        Err(None)
    } else {
        match spec_find_server(servers, priorities[attempt as int]@) {
            Some(i) => Ok(i),
            None => Err(Some(priorities[attempt as int]@)),
        }
    }
}

/// Decides the step at position `attempt` of the priority list.
pub fn init_step(priorities: &Vec<String>, servers: &Vec<Server>, attempt: usize) -> (r: InitStep)
    ensures
        match spec_init_step(priorities@, servers@, attempt as nat) {
            Ok(i) => r matches InitStep::Connect(j) && j == i,
            Err(None) => r matches InitStep::Fail(ServerHandleError::NoServerReachable),
            Err(Some(name)) => r matches InitStep::Fail(ServerHandleError::UnresolvedServer(n)) && n@
                == name,
        },
{
    if attempt >= priorities.len() {
        return InitStep::Fail(ServerHandleError::NoServerReachable);
    }
    let name = &priorities[attempt];
    match find_server(servers, name.as_str()) {
        Some(i) => InitStep::Connect(i),
        None => InitStep::Fail(ServerHandleError::UnresolvedServer(name.clone())),
    }
}

/// Progress through the priority list while a newly arrived player is being connected.
pub struct ServerInit {
    pub attempt: usize,
}

impl ServerInit {
    /// Starts at the head of the priority list.
    pub fn new() -> (r: ServerInit)
        ensures
            r.attempt == 0,
    {
        ServerInit { attempt: 0 }
    }

    /// The step at the current position of the priority list.
    pub fn step(&self, priorities: &Vec<String>, servers: &Vec<Server>) -> (r: InitStep)
        ensures
            match spec_init_step(priorities@, servers@, self.attempt as nat) {
                Ok(i) => r matches InitStep::Connect(j) && j == i,
                Err(None) => r matches InitStep::Fail(ServerHandleError::NoServerReachable),
                Err(Some(name)) => r matches InitStep::Fail(ServerHandleError::UnresolvedServer(n))
                    && n@ == name,
            },
    {
        init_step(priorities, servers, self.attempt)
    }

    /// The login to the server at the current position failed: the next name is tried.
    pub fn login_failed(&mut self, priorities: &Vec<String>)
        requires
            old(self).attempt < priorities@.len(),
        ensures
            final(self).attempt == old(self).attempt + 1,
    {
        let len = priorities.len();
        assert(self.attempt < len);
        self.attempt = self.attempt + 1;
    }
}

/// Switching a player to a server by name: the server's index, or the error for a name that
/// is not configured.
pub fn resolve_server(servers: &Vec<Server>, name: &str) -> (r: Result<usize, ServerHandleError>)
    ensures
        match spec_find_server(servers@, name@) {
            Some(i) => r matches Ok(j) && j == i,
            None => r matches Err(ServerHandleError::UnknownServer(n)) && n@ == name@,
        },
{
    match find_server(servers, name) {
        Some(i) => Ok(i),
        None => Err(ServerHandleError::UnknownServer(String::from_str(name))),
    }
}

/// The reason a player is given when the link to their server breaks: the error that broke
/// it (in its `Debug` form), or a plain notice when the link closed without one.
pub open spec fn spec_interruption_reason(error: Option<Seq<char>>) -> Seq<char> {
    match error {
        Some(e) => "Interrupted by server caused by: "@ + e,
        None => "Connected interrupted by server"@,
    }
}

/// Builds the reason a player is given when the link to their server breaks.
pub fn interruption_reason(error: Option<&str>) -> (r: String)
    ensures
        r@ == spec_interruption_reason(
            match error {
                Some(e) => Some(e@),
                None => None,
            },
        ),
{
    match error {
        Some(e) => {
            let mut s = String::from_str("Interrupted by server caused by: ");
            crate::text::push_str(&mut s, e);
            s
        },
        None => String::from_str("Connected interrupted by server"),
    }
}

/// The link to one backend server: whether the tasks that move its packets are running.
pub struct ServerProcess {
    pub spinning: bool,
}

impl ServerProcess {
    /// A link whose tasks have not started.
    pub fn new() -> (r: ServerProcess)
        ensures
            !r.spinning,
    {
        ServerProcess { spinning: false }
    }

    /// Starts the link's tasks; starting them twice is an error.
    pub fn spin_process(&mut self) -> (r: Result<(), ServerHandleError>)
        ensures
            !old(self).spinning ==> r is Ok && final(self).spinning,
            old(self).spinning ==> (r matches Err(ServerHandleError::AlreadySpinning)) && final(self).spinning,
    {
        if !self.spinning {
            self.spinning = true;
            Ok(())
        } else {
            Err(ServerHandleError::AlreadySpinning)
        }
    }

    /// Stops the link's tasks; an error when they never started.
    pub fn abort(&self) -> (r: Result<(), ServerHandleError>)
        ensures
            self.spinning ==> r is Ok,
            !self.spinning ==> (r matches Err(ServerHandleError::NotSpinning)),
    {
        if self.spinning {
            Ok(())
        } else {
            Err(ServerHandleError::NotSpinning)
        }
    }

    /// Whether a packet can be sent; an error when the tasks never started.
    pub fn send_packet(&self) -> (r: Result<(), ServerHandleError>)
        ensures
            self.spinning ==> r is Ok,
            !self.spinning ==> (r matches Err(ServerHandleError::NotSpinning)),
    {
        if self.spinning {
            Ok(())
        } else {
            Err(ServerHandleError::NotSpinning)
        }
    }
}

/// A player's connection to whichever backend server they are on.
pub struct ServerHandle {
    pub current_server: Option<ServerProcess>,
}

impl ServerHandle {
    /// A player not connected to any server yet.
    pub fn new() -> (r: ServerHandle)
        ensures
            r.current_server is None,
    {
        ServerHandle { current_server: None }
    }

    /// Whether a packet from the player goes to the server: only when there is a server whose
    /// link is running; otherwise it is dropped, which is no error.
    pub fn send_packet(&self) -> (r: bool)
        ensures
            r == (self.current_server matches Some(p) && p.spinning),
    {
        match &self.current_server {
            Some(p) => p.spinning,
            None => false,
        }
    }

    /// Starts the link to the current server, if there is one.
    pub fn spin_server(&mut self) -> (r: Result<(), ServerHandleError>)
        ensures
            match old(self).current_server {
                None => r is Ok && final(self).current_server is None,
                Some(p) => if p.spinning {
                    (r matches Err(ServerHandleError::AlreadySpinning)) && final(self).current_server
                        == Some(p)
                } else {
                    r is Ok && final(self).current_server == Some(ServerProcess { spinning: true })
                },
            },
    {
        match &mut self.current_server {
            Some(p) => p.spin_process(),
            None => Ok(()),
        }
    }

    /// Stops the link to the current server, if there is one.
    pub fn abort(&self) -> (r: Result<(), ServerHandleError>)
        ensures
            match self.current_server {
                None => r is Ok,
                Some(p) => if p.spinning {
                    r is Ok
                } else {
                    r matches Err(ServerHandleError::NotSpinning)
                },
            },
    {
        match &self.current_server {
            Some(p) => p.abort(),
            None => Ok(()),
        }
    }

    /// Connects the player to a new server whose login succeeded: the old link is stopped
    /// (an error if it never started) and the new one starts.
    pub fn switch_server(&mut self) -> (r: Result<(), ServerHandleError>)
        ensures
            (old(self).current_server matches Some(p) && !p.spinning) ==> (r matches Err(
                ServerHandleError::NotSpinning,
            )) && final(self).current_server == old(self).current_server,
            !(old(self).current_server matches Some(p) && !p.spinning) ==> r is Ok
                && final(self).current_server == Some(ServerProcess { spinning: true }),
    {
        if let Some(p) = &self.current_server {
            p.abort()?;
        }
        self.current_server = Some(ServerProcess::new());
        self.spin_server()
    }
}

} // verus!
