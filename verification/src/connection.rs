//! One sample of the machine's TCP connection table, and the rule that says which
//! of its entries count as a sign of use.

use vstd::prelude::*;

verus! {

/// Port on which the SSH daemon listens.
pub const SSH_PORT: u16 = 22;

/// Port on which the editor server listens.
pub const CODE_SERVER_PORT: u16 = 8080;

/// State of a TCP connection as the operating system reports it.
#[derive(Clone, Copy, Debug, PartialEq, Eq, Hash, Structural)]
pub enum TcpState {
    Established,
    SynSent,
    SynRecv,
    FinWait1,
    FinWait2,
    TimeWait,
    Close,
    CloseWait,
    LastAck,
    Listen,
    Closing,
    NewSynRecv,
}

/// One entry of the connection table: what the monitor reads of it.
#[derive(Clone, Copy, Debug, PartialEq, Eq, Hash, Structural)]
pub struct ConnectionObservation {
    pub state: TcpState,
    pub local_port: u16,
}

/// The local ports whose connections count as activity. Fixed once built.
#[derive(Clone, Debug)]
pub struct MonitoredPortSet {
    ports: Vec<u16>,
}

impl View for MonitoredPortSet {
    type V = Set<u16>;

    closed spec fn view(&self) -> Set<u16> {
        self.ports@.to_set()
    }
}

/// An entry qualifies when it is established, not merely listening or in
/// transition, and its local port is monitored.
pub open spec fn qualifies(entry: ConnectionObservation, ports: Set<u16>) -> bool {
    entry.state == TcpState::Established && ports.contains(entry.local_port)
}

/// The qualifying entries of a sample, in the order of the sample.
pub open spec fn qualifying(entries: Seq<ConnectionObservation>, ports: Set<u16>) -> Seq<
    ConnectionObservation,
> {
    entries.filter(|entry: ConnectionObservation| qualifies(entry, ports))
}

impl ConnectionObservation {
    /// An entry in `state` whose local end is `local_port`.
    pub fn new(state: TcpState, local_port: u16) -> (entry: ConnectionObservation)
        ensures
            entry.state == state,
            entry.local_port == local_port,
    {
        ConnectionObservation { state, local_port }
    }

    /// Whether the connection is established.
    pub fn is_established(&self) -> (yes: bool)
        ensures
            yes == (self.state == TcpState::Established),
    {
        self.state == TcpState::Established
    }

    /// Whether this entry counts as activity under `ports`.
    pub fn qualifies(&self, ports: &MonitoredPortSet) -> (yes: bool)
        ensures
            yes == qualifies(*self, ports@),
    {
        self.is_established() && ports.contains(self.local_port)
    }
}

impl MonitoredPortSet {
    /// The set of the ports listed in `ports`; a port listed twice is in it once.
    pub fn new(ports: Vec<u16>) -> (set: MonitoredPortSet)
        ensures
            set@ == ports@.to_set(),
    {
        MonitoredPortSet { ports }
    }

    /// The SSH port and the editor server's port.
    pub fn standard() -> (set: MonitoredPortSet)
        ensures
            set@ == set![SSH_PORT, CODE_SERVER_PORT],
    {
        let mut ports: Vec<u16> = Vec::new();
        ports.push(SSH_PORT);
        ports.push(CODE_SERVER_PORT);
        proof {
            assert(ports@[0] == SSH_PORT && ports@[1] == CODE_SERVER_PORT);
            assert(ports@.to_set() =~= set![SSH_PORT, CODE_SERVER_PORT]);
        }
        MonitoredPortSet { ports }
    }

    /// Whether `port` is monitored.
    pub fn contains(&self, port: u16) -> (found: bool)
        ensures
            found == self@.contains(port),
    {
        let mut i: usize = 0;
        while i < self.ports.len()
            invariant
                i <= self.ports.len(),
                forall|j: int| 0 <= j < i ==> self.ports@[j] != port,
            decreases self.ports.len() - i,
        {
            if self.ports[i] == port {
                return true;
            }
            i += 1;
        }
        false
    }
}

/// Counts the established connections on monitored ports in one sample.
pub fn count_conns(entries: &Vec<ConnectionObservation>, ports: &MonitoredPortSet) -> (count:
    usize)
    ensures
        count == qualifying(entries@, ports@).len(),
{
    let ghost pred = |entry: ConnectionObservation| qualifies(entry, ports@);
    let mut count: usize = 0;
    let mut i: usize = 0;
    while i < entries.len()
        invariant
            i <= entries.len(),
            count <= i,
            pred == (|entry: ConnectionObservation| qualifies(entry, ports@)),
            count == entries@.take(i as int).filter(pred).len(),
        decreases entries.len() - i,
    {
        proof {
            let next = entries@.take(i + 1);
            assert(next.drop_last() =~= entries@.take(i as int));
            assert(next.last() == entries@[i as int]);
            reveal(Seq::filter);
        }
        if entries[i].qualifies(ports) {
            count += 1;
        }
        i += 1;
    }
    proof {
        assert(entries@.take(i as int) =~= entries@);
    }
    count
}

} // verus!
