//! LAN matchmaking: the decisions of hosting, searching and joining. The
//! host performs the network work that each operation asks for and reports
//! what came of it.
use vstd::prelude::*;
use vstd::string::StringExecFns;

verus! {

/// A one-shot countdown in nanoseconds: it finishes once `elapsed` reaches
/// `duration`, and stays finished until reset.
#[derive(Clone, Copy, Debug, PartialEq, Eq, Structural)]
pub struct Timer {
    pub duration: u64,
    pub elapsed: u64,
}

impl Timer {
    pub open spec fn finished_spec(&self) -> bool {
        self.elapsed >= self.duration
    }

    pub fn from_nanos(duration: u64) -> (r: Timer)
        ensures
            r == (Timer { duration, elapsed: 0 }),
    {
        Timer { duration, elapsed: 0 }
    }

    /// Advances the countdown by `delta`, stopping at its duration.
    pub fn tick(&mut self, delta: u64)
        ensures
            final(self).duration == old(self).duration,
            final(self).elapsed == if old(self).elapsed + delta >= old(self).duration {
                old(self).duration as int
            } else {
                old(self).elapsed + delta
            },
    {
        if self.elapsed as u128 + delta as u128 >= self.duration as u128 {
            self.elapsed = self.duration;
        } else {
            self.elapsed = self.elapsed + delta;
        }
    }

    pub fn finished(&self) -> (r: bool)
        ensures
            r == self.finished_spec(),
    {
        self.elapsed >= self.duration
    }

    pub fn reset(&mut self)
        ensures
            *final(self) == (Timer { elapsed: 0, ..*old(self) }),
    {
        self.elapsed = 0;
    }
}

/// A host found by discovery, by its advertised name.
#[derive(Clone, Debug)]
pub struct ServerInfo {
    pub name: String,
}

/// What the host polls for a match socket on this tick.
#[derive(Clone, Copy, Debug, PartialEq, Eq, Structural)]
pub enum Poll {
    /// Nothing to poll: a socket is already established.
    Nothing,
    /// Poll the local server for joined players.
    Players,
    /// Poll for the start of a game joined on another host.
    GameStart,
}

/// The network work one `update` asks of the host.
#[derive(Clone, Copy, Debug, PartialEq, Eq, Structural)]
pub struct UpdateAction {
    /// Send a new discovery query for the service type.
    pub search: bool,
    pub poll: Poll,
}

/// What tearing down the current posture takes.
#[derive(Clone, Copy, Debug, PartialEq, Eq, Structural)]
pub enum CancelAction {
    /// Stop the local server.
    StopServer,
    /// Leave whatever server was joined, if any.
    LeaveServer,
}

/// Hosting, searching and joining on the LAN under one service name.
#[derive(Clone, Debug)]
pub struct Matchmaker {
    pub service_name: String,
    pub host_name: String,
    pub player_count: u32,
    pub hosting: bool,
    pub joined_players: usize,
    pub search_enabled: bool,
    pub refresh: Timer,
    pub lan_servers: Vec<ServerInfo>,
    pub discovering: bool,
    pub joining: bool,
    pub socket: Option<u64>,
}

impl Matchmaker {
    /// Hosting and joining exclude each other.
    pub open spec fn wf(&self) -> bool {
        !(self.hosting && self.joining)
    }

    pub open spec fn hosting_spec(&self) -> bool {
        self.hosting
    }

    pub open spec fn joining_spec(&self) -> bool {
        self.joining
    }

    pub open spec fn joined_spec(&self) -> bool {
        self.socket.is_some()
    }

    pub open spec fn discovering_spec(&self) -> bool {
        self.discovering
    }

    pub open spec fn servers_spec(&self) -> Seq<ServerInfo> {
        self.lan_servers@
    }

    pub open spec fn service_name_spec(&self) -> Seq<char> {
        self.service_name@
    }

    pub open spec fn refresh_spec(&self) -> Timer {
        self.refresh
    }

    pub open spec fn socket_spec(&self) -> Option<u64> {
        self.socket
    }

    pub open spec fn player_count_spec(&self) -> u32 {
        self.player_count
    }

    pub open spec fn joined_players_spec(&self) -> usize {
        self.joined_players
    }

    /// Idle: no server, no join attempt, no discovery, nothing found, no
    /// socket.
    pub open spec fn is_idle(&self) -> bool {
        &&& !self.hosting
        &&& !self.joining
        &&& !self.discovering
        &&& self.lan_servers@.len() == 0
        &&& self.socket.is_none()
    }

    /// An idle matchmaker for `service_name`, refreshing discovery every
    /// `refresh` nanoseconds.
    pub fn new(service_name: String, host_name: String, player_count: u32, refresh: u64, search_enabled: bool) -> (r: Self)
        ensures
            r.wf(),
            r.is_idle(),
            r.service_name_spec() == service_name@,
            r.host_name@ == host_name@,
            r.player_count_spec() == player_count,
            r.refresh_spec() == (Timer { duration: refresh, elapsed: 0 }),
            r.search_enabled == search_enabled,
            r.joined_players_spec() == 0,
    {
        Matchmaker {
            service_name,
            host_name,
            player_count,
            hosting: false,
            joined_players: 0,
            search_enabled,
            refresh: Timer::from_nanos(refresh),
            lan_servers: Vec::new(),
            discovering: false,
            joining: false,
            socket: None,
        }
    }

    /// Whether a local server exists.
    pub fn is_hosting(&self) -> (r: bool)
        ensures
            r == self.hosting_spec(),
    {
        self.hosting
    }

    /// Whether a match socket has been established, by hosting or joining.
    pub fn is_joined(&self) -> (r: bool)
        ensures
            r == self.joined_spec(),
    {
        self.socket.is_some()
    }

    /// Whether a join attempt is under way.
    pub fn is_joining(&self) -> (r: bool)
        ensures
            r == self.joining_spec(),
    {
        self.joining
    }

    pub fn service_name(&self) -> (r: &str)
        ensures
            r@ == self.service_name_spec(),
    {
        self.service_name.as_str()
    }

    /// The DNS-SD service type that hosts advertise under.
    pub fn service_type(&self) -> (r: String)
        ensures
            r@ == "_"@ + self.service_name_spec() + "._udp.local."@,
    {
        let head = String::from_str("_");
        let with_name = head.concat(self.service_name.as_str());
        with_name.concat("._udp.local.")
    }

    pub fn lan_servers(&self) -> (r: &Vec<ServerInfo>)
        ensures
            r@ == self.servers_spec(),
    {
        &self.lan_servers
    }

    /// How many players have joined the local server, while hosting.
    pub fn joined_players(&self) -> (r: Option<usize>)
        ensures
            r == if self.hosting_spec() { Some(self.joined_players_spec()) } else { None::<usize> },
    {
        if self.hosting {
            Some(self.joined_players)
        } else {
            None
        }
    }

    pub fn player_count(&self) -> (r: u32)
        ensures
            r == self.player_count_spec(),
    {
        self.player_count
    }

    /// The established match socket, by the host's handle.
    pub fn network_match_socket(&self) -> (r: Option<u64>)
        ensures
            r == self.socket_spec(),
    {
        self.socket
    }

    pub fn disable_search(&mut self)
        ensures
            final(self).wf() == old(self).wf(),
            !final(self).search_enabled,
            final(self).hosting_spec() == old(self).hosting_spec(),
            final(self).joining_spec() == old(self).joining_spec(),
            final(self).socket_spec() == old(self).socket_spec(),
            final(self).discovering_spec() == old(self).discovering_spec(),
            final(self).servers_spec() == old(self).servers_spec(),
            final(self).refresh_spec() == old(self).refresh_spec(),
            final(self).service_name_spec() == old(self).service_name_spec(),
    {
        self.search_enabled = false;
    }

    pub fn enable_search(&mut self)
        ensures
            final(self).wf() == old(self).wf(),
            final(self).search_enabled,
            final(self).hosting_spec() == old(self).hosting_spec(),
            final(self).joining_spec() == old(self).joining_spec(),
            final(self).socket_spec() == old(self).socket_spec(),
            final(self).discovering_spec() == old(self).discovering_spec(),
            final(self).servers_spec() == old(self).servers_spec(),
            final(self).refresh_spec() == old(self).refresh_spec(),
            final(self).service_name_spec() == old(self).service_name_spec(),
    {
        self.search_enabled = true;
    }

    /// Tears down whatever posture is active and forgets discovery: the
    /// matchmaker is idle afterwards, from any posture. Returns the network
    /// work this takes.
    pub fn lan_cancel(&mut self) -> (r: CancelAction)
        ensures
            final(self).wf(),
            final(self).is_idle(),
            r == if old(self).hosting_spec() { CancelAction::StopServer } else { CancelAction::LeaveServer },
            final(self).search_enabled == old(self).search_enabled,
            final(self).refresh_spec() == old(self).refresh_spec(),
            final(self).service_name_spec() == old(self).service_name_spec(),
            final(self).host_name@ == old(self).host_name@,
            final(self).player_count_spec() == old(self).player_count_spec(),
    {
        let r = if self.hosting {
            CancelAction::StopServer
        } else {
            CancelAction::LeaveServer
        };
        self.hosting = false;
        self.joining = false;
        self.socket = None;
        self.discovering = false;
        self.lan_servers = Vec::new();
        r
    }

    /// Moves to another service name; discovery and hosting are scoped by
    /// it, so a change first cancels the current posture.
    pub fn update_service_name(&mut self, name: &str) -> (r: Option<CancelAction>)
        requires
            old(self).wf(),
        ensures
            final(self).wf(),
            final(self).service_name_spec() == name@,
            old(self).service_name_spec() != name@ ==> final(self).is_idle() && r == Some(
                if old(self).hosting_spec() { CancelAction::StopServer } else { CancelAction::LeaveServer },
            ),
            old(self).service_name_spec() == name@ ==> r.is_none() && final(self).is_idle()
                == old(self).is_idle() && final(self).hosting_spec() == old(self).hosting_spec()
                && final(self).joining_spec() == old(self).joining_spec() && final(self).socket_spec()
                == old(self).socket_spec(),
            final(self).search_enabled == old(self).search_enabled,
            final(self).refresh_spec() == old(self).refresh_spec(),
    {
        let new_name = String::from_str(name);
        if self.service_name != new_name {
            self.service_name = new_name;
            Some(self.lan_cancel())
        } else {
            None
        }
    }

    /// Hosts under the current service: cancels a pending join, and keeps
    /// an existing server. Returns whether the host must create a server.
    pub fn lan_host(&mut self) -> (create: bool)
        requires
            old(self).wf(),
        ensures
            final(self).wf(),
            final(self).hosting_spec(),
            !final(self).joining_spec(),
            create == !old(self).hosting_spec(),
            !old(self).hosting_spec() ==> final(self).joined_players_spec() == 0 && final(self).socket_spec().is_none(),
            old(self).hosting_spec() ==> final(self).joined_players_spec() == old(self).joined_players_spec()
                && final(self).socket_spec() == old(self).socket_spec(),
            final(self).search_enabled == old(self).search_enabled,
            final(self).refresh_spec() == old(self).refresh_spec(),
            final(self).service_name_spec() == old(self).service_name_spec(),
    {
        if self.hosting {
            false
        } else {
            if self.joining {
                self.joining = false;
                self.socket = None;
            }
            self.socket = None;
            self.hosting = true;
            self.joined_players = 0;
            true
        }
    }

    /// Joins a discovered server: cancels the current posture, then starts
    /// a join attempt. Returns what cancelling took.
    pub fn lan_join(&mut self, server: &ServerInfo) -> (r: CancelAction)
        ensures
            final(self).wf(),
            final(self).joining_spec(),
            !final(self).hosting_spec(),
            final(self).socket_spec().is_none(),
            !final(self).discovering_spec(),
            final(self).servers_spec().len() == 0,
            r == if old(self).hosting_spec() { CancelAction::StopServer } else { CancelAction::LeaveServer },
            final(self).search_enabled == old(self).search_enabled,
            final(self).refresh_spec() == old(self).refresh_spec(),
            final(self).service_name_spec() == old(self).service_name_spec(),
    {
        let r = self.lan_cancel();
        self.joining = true;
        r
    }

    /// The per-tick hook. Ticks the refresh timer; when searching is
    /// enabled, nothing is hosted or joined and the timer has run out, asks
    /// for a discovery query and restarts the timer. Asks to poll for a
    /// socket while none exists: the local server's players when hosting,
    /// otherwise a game start.
    pub fn update(&mut self, delta: u64) -> (r: UpdateAction)
        requires
            old(self).wf(),
        ensures
            final(self).wf(),
            ({
                let t = if old(self).refresh.elapsed + delta >= old(self).refresh.duration {
                    old(self).refresh.duration as int
                } else {
                    old(self).refresh.elapsed + delta
                };
                let search = old(self).search_enabled && !old(self).hosting_spec() && !old(self).joined_spec()
                    && t >= old(self).refresh.duration;
                &&& r.search == search
                &&& final(self).refresh_spec().duration == old(self).refresh_spec().duration
                &&& final(self).refresh_spec().elapsed == if search { 0 } else { t }
                &&& search ==> final(self).discovering_spec()
                &&& !search ==> final(self).discovering_spec() == old(self).discovering_spec()
            }),
            r.poll == if old(self).joined_spec() {
                Poll::Nothing
            } else if old(self).hosting_spec() {
                Poll::Players
            } else {
                Poll::GameStart
            },
            final(self).hosting_spec() == old(self).hosting_spec(),
            final(self).joining_spec() == old(self).joining_spec(),
            final(self).socket_spec() == old(self).socket_spec(),
            final(self).servers_spec() == old(self).servers_spec(),
            final(self).search_enabled == old(self).search_enabled,
            final(self).service_name_spec() == old(self).service_name_spec(),
    {
        self.refresh.tick(delta);
        let search = self.search_enabled && !self.is_hosting() && !self.is_joined() && self.refresh.finished();
        if search {
            self.discovering = true;
            self.refresh.reset();
        }
        let poll = if self.is_joined() {
            Poll::Nothing
        } else if self.hosting {
            Poll::Players
        } else {
            Poll::GameStart
        };
        UpdateAction { search, poll }
    }

    /// Starts a discovery query under the current service; returns the
    /// service type to query.
    pub fn lan_search(&mut self) -> (r: String)
        ensures
            r@ == "_"@ + old(self).service_name_spec() + "._udp.local."@,
            final(self).discovering_spec(),
            final(self).wf() == old(self).wf(),
            final(self).hosting_spec() == old(self).hosting_spec(),
            final(self).joining_spec() == old(self).joining_spec(),
            final(self).socket_spec() == old(self).socket_spec(),
            final(self).servers_spec() == old(self).servers_spec(),
            final(self).service_name_spec() == old(self).service_name_spec(),
    {
        self.discovering = true;
        self.service_type()
    }

    /// Records what discovery has found so far.
    pub fn set_lan_servers(&mut self, servers: Vec<ServerInfo>)
        ensures
            final(self).servers_spec() == servers@,
            final(self).wf() == old(self).wf(),
            final(self).hosting_spec() == old(self).hosting_spec(),
            final(self).joining_spec() == old(self).joining_spec(),
            final(self).socket_spec() == old(self).socket_spec(),
            final(self).discovering_spec() == old(self).discovering_spec(),
    {
        self.lan_servers = servers;
    }

    /// Records the outcome of polling the local server: how many players
    /// have joined, and the match socket once the match is full. Ignored
    /// unless hosting.
    pub fn players_polled(&mut self, joined_players: usize, socket: Option<u64>)
        requires
            old(self).wf(),
        ensures
            final(self).wf(),
            old(self).hosting_spec() ==> final(self).joined_players_spec() == joined_players
                && final(self).socket_spec() == socket,
            !old(self).hosting_spec() ==> final(self).joined_players_spec() == old(self).joined_players_spec()
                && final(self).socket_spec() == old(self).socket_spec(),
            final(self).hosting_spec() == old(self).hosting_spec(),
            final(self).joining_spec() == old(self).joining_spec(),
    {
        if self.hosting {
            self.joined_players = joined_players;
            self.socket = socket;
        }
    }

    /// Records the outcome of polling for a game start on a joined host.
    /// Ignored while hosting.
    pub fn game_start_polled(&mut self, socket: Option<u64>)
        requires
            old(self).wf(),
        ensures
            final(self).wf(),
            !old(self).hosting_spec() ==> final(self).socket_spec() == socket,
            old(self).hosting_spec() ==> final(self).socket_spec() == old(self).socket_spec(),
            final(self).hosting_spec() == old(self).hosting_spec(),
            final(self).joining_spec() == old(self).joining_spec(),
    {
        if !self.hosting {
            self.socket = socket;
        }
    }
}

/// Settings of a matchmaker, built step by step.
#[derive(Clone, Debug)]
pub struct MatchmakerPlugin {
    pub service_name: String,
    pub host_name: String,
    pub player_count: u32,
    /// Discovery refresh period, in nanoseconds.
    pub refresh: u64,
    pub start_searching: bool,
}

/// Two seconds, in nanoseconds.
pub const DEFAULT_REFRESH: u64 = 2_000_000_000;

impl MatchmakerPlugin {
    /// Settings for `service_name`: host name "default_host", two players,
    /// a two-second refresh, not searching.
    pub fn new(service_name: &str) -> (r: Self)
        ensures
            r.service_name@ == service_name@,
            r.host_name@ == "default_host"@,
            r.player_count == 2,
            r.refresh == DEFAULT_REFRESH,
            !r.start_searching,
    {
        MatchmakerPlugin {
            service_name: String::from_str(service_name),
            host_name: String::from_str("default_host"),
            player_count: 2,
            refresh: DEFAULT_REFRESH,
            start_searching: false,
        }
    }

    pub fn service_name(self, service_name: String) -> (r: Self)
        ensures
            r.service_name@ == service_name@,
            r.host_name@ == self.host_name@,
            r.player_count == self.player_count,
            r.refresh == self.refresh,
            r.start_searching == self.start_searching,
    {
        MatchmakerPlugin { service_name, ..self }
    }

    pub fn host_name(self, host_name: String) -> (r: Self)
        ensures
            r.service_name@ == self.service_name@,
            r.host_name@ == host_name@,
            r.player_count == self.player_count,
            r.refresh == self.refresh,
            r.start_searching == self.start_searching,
    {
        MatchmakerPlugin { host_name, ..self }
    }

    pub fn player_count(self, player_count: u32) -> (r: Self)
        ensures
            r.service_name@ == self.service_name@,
            r.host_name@ == self.host_name@,
            r.player_count == player_count,
            r.refresh == self.refresh,
            r.start_searching == self.start_searching,
    {
        MatchmakerPlugin { player_count, ..self }
    }

    /// Sets the refresh period, in nanoseconds.
    pub fn refresh(self, nanos: u64) -> (r: Self)
        ensures
            r.service_name@ == self.service_name@,
            r.host_name@ == self.host_name@,
            r.player_count == self.player_count,
            r.refresh == nanos,
            r.start_searching == self.start_searching,
    {
        MatchmakerPlugin { refresh: nanos, ..self }
    }

    pub fn start_searching(self) -> (r: Self)
        ensures
            r.service_name@ == self.service_name@,
            r.host_name@ == self.host_name@,
            r.player_count == self.player_count,
            r.refresh == self.refresh,
            r.start_searching,
    {
        MatchmakerPlugin { start_searching: true, ..self }
    }

    /// The idle matchmaker these settings describe.
    pub fn build(self) -> (r: Matchmaker)
        ensures
            r.wf(),
            r.is_idle(),
            r.service_name_spec() == self.service_name@,
            r.host_name@ == self.host_name@,
            r.player_count_spec() == self.player_count,
            r.refresh_spec() == (Timer { duration: self.refresh, elapsed: 0 }),
            r.search_enabled == self.start_searching,
    {
        Matchmaker::new(self.service_name, self.host_name, self.player_count, self.refresh, self.start_searching)
    }
}

} // verus!
