//! The peers that we are connected to, or expect a connection from, keyed by
//! address, with the state of each connection and the channel that reaches
//! its handler.
use crate::database::entities::PeerEntity;
use crate::frame::wire_text;
use crate::message_common::ConnectionType;
use crate::server::peer::spec_ipv4_text;
use crate::SlskError;
use vstd::prelude::*;

verus! {

/// The state of a connection with a peer.
#[derive(Debug, Clone, Copy, PartialEq, Eq, Structural)]
pub enum ConnectionState {
    /// The connection is established.
    Established(ConnectionType),
    /// A `PeerInit` message still has to be sent or received.
    PeerInitPending,
    /// The server relayed a connection request from the peer; we try to
    /// connect and send a `PierceFirewall` message.
    IndirectConnectionPending(ConnectionType),
    /// We asked the server to relay a connection request; the peer should
    /// connect and send a `PierceFirewall` message.
    ExpectingIndirectConnection(ConnectionType),
    /// The connection could not be made.
    Failed,
    /// The connection used to exist.
    Lost,
}

impl ConnectionState {
    /// The kind of connection of a state: its type where it has one, a
    /// handshake otherwise.
    pub open spec fn spec_connection_type(self) -> ConnectionType {
        match self {
            ConnectionState::IndirectConnectionPending(t) => t,
            ConnectionState::ExpectingIndirectConnection(t) => t,
            ConnectionState::Established(t) => t,
            _ => ConnectionType::HandShake,
        }
    }

    pub fn to_connection_type(&self) -> (t: ConnectionType)
        ensures
            t == self.spec_connection_type(),
    {
        match self {
            ConnectionState::IndirectConnectionPending(conn_type)
            | ConnectionState::ExpectingIndirectConnection(conn_type)
            | ConnectionState::Established(conn_type) => *conn_type,
            _ => ConnectionType::HandShake,
        }
    }

    /// Whether the state is that of a connection with a parent of the
    /// distributed network: established, or pending either way.
    pub open spec fn is_parent(self) -> bool {
        match self {
            ConnectionState::Established(t) => t == ConnectionType::DistributedNetwork,
            ConnectionState::IndirectConnectionPending(t) => t == ConnectionType::DistributedNetwork,
            ConnectionState::ExpectingIndirectConnection(t) => t
                == ConnectionType::DistributedNetwork,
            _ => false,
        }
    }

    fn parent(&self) -> (b: bool)
        ensures
            b == self.is_parent(),
    {
        match self {
            ConnectionState::Established(ConnectionType::DistributedNetwork)
            | ConnectionState::IndirectConnectionPending(ConnectionType::DistributedNetwork)
            | ConnectionState::ExpectingIndirectConnection(ConnectionType::DistributedNetwork) => true,
            _ => false,
        }
    }
}

/// What we know of a connection with a peer: its user name and token when
/// known, the channel to its handler when there is one, and its state.
#[derive(Debug)]
pub struct PeerConnectionState<C> {
    pub username: Option<String>,
    pub token: Option<u32>,
    pub channel: Option<C>,
    pub conn_state: ConnectionState,
}

/// A connection state with its user name as text.
pub struct PeerStateView<C> {
    pub username: Option<Seq<char>>,
    pub token: Option<u32>,
    pub channel: Option<C>,
    pub conn_state: ConnectionState,
}

/// The text of an optional string.
pub open spec fn opt_text(s: Option<String>) -> Option<Seq<char>> {
    match s {
        Some(x) => Some(x@),
        None => None,
    }
}

impl<C> View for PeerConnectionState<C> {
    type V = PeerStateView<C>;

    open spec fn view(&self) -> PeerStateView<C> {
        PeerStateView {
            username: opt_text(self.username),
            token: self.token,
            channel: self.channel,
            conn_state: self.conn_state,
        }
    }
}

impl<C> PeerConnectionState<C> {
    fn set_conn_state(&mut self, state: ConnectionState)
        ensures
            final(self)@ == (PeerStateView { conn_state: state, ..old(self)@ }),
    {
        self.conn_state = state;
    }
}

/// Copy of an optional string.
pub(crate) fn clone_opt_string(s: &Option<String>) -> (r: Option<String>)
    ensures
        opt_text(r) == opt_text(*s),
{
    match s {
        Some(x) => Some(x.clone()),
        None => None,
    }
}

/// The entries of the pool, with their addresses as text.
pub open spec fn entry_views<C>(s: Seq<(String, PeerConnectionState<C>)>) -> Seq<
    (Seq<char>, PeerStateView<C>),
> {
    s.map_values(|e: (String, PeerConnectionState<C>)| (e.0@, e.1@))
}

/// The map that a list of entries stands for, later entries first.
pub open spec fn map_of<C>(s: Seq<(Seq<char>, PeerStateView<C>)>) -> Map<Seq<char>, PeerStateView<C>>
    decreases s.len(),
{
    if s.len() == 0 {
        Map::empty()
    } else {
        map_of(s.drop_last()).insert(s.last().0, s.last().1)
    }
}

/// No address occurs twice.
pub open spec fn keys_unique<C>(s: Seq<(Seq<char>, PeerStateView<C>)>) -> bool {
    forall|i: int, j: int| 0 <= i < j < s.len() ==> #[trigger] s[i].0 != #[trigger] s[j].0
}

/// The map holds exactly the addresses of the entries.
proof fn lemma_map_of_dom<C>(s: Seq<(Seq<char>, PeerStateView<C>)>, k: Seq<char>)
    ensures
        map_of(s).contains_key(k) <==> exists|i: int| 0 <= i < s.len() && #[trigger] s[i].0 == k,
    decreases s.len(),
{
    if s.len() > 0 {
        lemma_map_of_dom(s.drop_last(), k);
        if map_of(s.drop_last()).contains_key(k) {
            let i = choose|i: int| 0 <= i < s.drop_last().len() && #[trigger] s.drop_last()[i].0 == k;
            assert(s[i].0 == k);
        }
        if exists|i: int| 0 <= i < s.len() && #[trigger] s[i].0 == k {
            let i = choose|i: int| 0 <= i < s.len() && #[trigger] s[i].0 == k;
            if i < s.len() - 1 {
                assert(s.drop_last()[i].0 == k);
            }
        }
    }
}

/// With unique addresses, the map gives each entry's state at its address.
proof fn lemma_map_of_index<C>(s: Seq<(Seq<char>, PeerStateView<C>)>, i: int)
    requires
        keys_unique(s),
        0 <= i < s.len(),
    ensures
        map_of(s).contains_key(s[i].0),
        map_of(s)[s[i].0] == s[i].1,
    decreases s.len(),
{
    if i < s.len() - 1 {
        let d = s.drop_last();
        assert(d[i] == s[i]);
        assert(keys_unique(d)) by {
            assert forall|a: int, b: int| 0 <= a < b < d.len() implies #[trigger] d[a].0
                != #[trigger] d[b].0 by {
                assert(d[a] == s[a] && d[b] == s[b]);
            }
        }
        lemma_map_of_index(d, i);
        assert(s[i].0 != s[s.len() - 1].0);
    }
}

/// Replacing the state of an entry replaces the state at its address.
proof fn lemma_map_of_update<C>(s: Seq<(Seq<char>, PeerStateView<C>)>, i: int, v: PeerStateView<C>)
    requires
        keys_unique(s),
        0 <= i < s.len(),
    ensures
        map_of(s.update(i, (s[i].0, v))) == map_of(s).insert(s[i].0, v),
    decreases s.len(),
{
    let t = s.update(i, (s[i].0, v));
    let k = s[i].0;
    if i == s.len() - 1 {
        assert(t.drop_last() =~= s.drop_last());
        assert(map_of(t) =~= map_of(s).insert(k, v));
    } else {
        let d = s.drop_last();
        assert(keys_unique(d)) by {
            assert forall|a: int, b: int| 0 <= a < b < d.len() implies #[trigger] d[a].0
                != #[trigger] d[b].0 by {
                assert(d[a] == s[a] && d[b] == s[b]);
            }
        }
        assert(d[i] == s[i]);
        lemma_map_of_update(d, i, v);
        assert(t.drop_last() =~= d.update(i, (d[i].0, v)));
        assert(s.last().0 != k);
        assert(map_of(t) =~= map_of(s).insert(k, v));
    }
}

/// Pushing an entry with a new address keeps the addresses unique.
proof fn lemma_unique_push<C>(s: Seq<(Seq<char>, PeerStateView<C>)>, e: (Seq<char>, PeerStateView<C>))
    requires
        keys_unique(s),
        forall|i: int| 0 <= i < s.len() ==> #[trigger] s[i].0 != e.0,
    ensures
        keys_unique(s.push(e)),
{
    let t = s.push(e);
    assert forall|a: int, b: int| 0 <= a < b < t.len() implies #[trigger] t[a].0
        != #[trigger] t[b].0 by {
        assert(t[a] == s[a]);
        if b < s.len() {
            assert(t[b] == s[b]);
        }
    }
}

/// Number of entries whose state is that of a parent connection.
pub open spec fn parent_count<C>(s: Seq<(Seq<char>, PeerStateView<C>)>) -> nat
    decreases s.len(),
{
    if s.len() == 0 {
        0
    } else {
        parent_count(s.drop_last()) + if s.last().1.conn_state.is_parent() {
            1nat
        } else {
            0nat
        }
    }
}

/// The addresses of a map whose connection is with a parent.
pub open spec fn parent_addresses<C>(m: Map<Seq<char>, PeerStateView<C>>) -> Set<Seq<char>> {
    m.dom().filter(|k: Seq<char>| m[k].conn_state.is_parent())
}

/// With unique addresses, the entries with a parent state are as many as
/// the parent addresses of the map, and the map is finite.
proof fn lemma_parent_count<C>(s: Seq<(Seq<char>, PeerStateView<C>)>)
    requires
        keys_unique(s),
    ensures
        map_of(s).dom().finite(),
        parent_count(s) == parent_addresses(map_of(s)).len(),
    decreases s.len(),
{
    if s.len() == 0 {
        assert(map_of(s).dom() =~= Set::<Seq<char>>::empty());
        assert(parent_addresses(map_of(s)) =~= Set::<Seq<char>>::empty());
    } else {
        let d = s.drop_last();
        let (k, v) = s.last();
        assert(keys_unique(d)) by {
            assert forall|a: int, b: int| 0 <= a < b < d.len() implies #[trigger] d[a].0
                != #[trigger] d[b].0 by {
                assert(d[a] == s[a] && d[b] == s[b]);
            }
        }
        lemma_parent_count(d);
        let m = map_of(d);
        assert(!m.contains_key(k)) by {
            lemma_map_of_dom(d, k);
            if m.contains_key(k) {
                let i = choose|i: int| 0 <= i < d.len() && #[trigger] d[i].0 == k;
                assert(d[i] == s[i]);
            }
        }
        assert(map_of(s).dom() =~= m.dom().insert(k));
        vstd::set::axiom_set_insert_finite(m.dom(), k);
        let pm = parent_addresses(m);
        let ps = parent_addresses(map_of(s));
        m.dom().lemma_len_filter(|key: Seq<char>| m[key].conn_state.is_parent());
        if v.conn_state.is_parent() {
            assert(ps =~= pm.insert(k));
            vstd::set::axiom_set_insert_len(pm, k);
        } else {
            assert(ps =~= pm);
        }
    }
}

/// The peers that we know a connection state of, keyed by address.
#[derive(Debug)]
pub struct SenderPool<C> {
    entries: Vec<(String, PeerConnectionState<C>)>,
}

impl<C> View for SenderPool<C> {
    type V = Map<Seq<char>, PeerStateView<C>>;

    open spec fn view(&self) -> Map<Seq<char>, PeerStateView<C>> {
        map_of(entry_views(self.entries()))
    }
}

impl<C> SenderPool<C> {
    #[verifier::type_invariant]
    spec fn unique(&self) -> bool {
        keys_unique(entry_views(self.entries@))
    }

    /// The entries, in the order they were added.
    pub closed spec fn entries(&self) -> Seq<(String, PeerConnectionState<C>)> {
        self.entries@
    }

    /// An empty pool.
    pub fn new() -> (pool: Self)
        ensures
            pool@ == Map::<Seq<char>, PeerStateView<C>>::empty(),
    {
        let pool = SenderPool { entries: Vec::new() };
        assert(entry_views(pool.entries@) =~= Seq::<(Seq<char>, PeerStateView<C>)>::empty());
        pool
    }

    /// The index of the entry for an address.
    fn find(&self, address: &String) -> (r: Option<usize>)
        ensures
            match r {
                Some(i) => i < self.entries@.len() && self.entries@[i as int].0@ == address@,
                None => !self@.contains_key(address@),
            },
            r is Some <==> self@.contains_key(address@),
    {
        proof {
            use_type_invariant(self);
        }
        let ghost ev = entry_views(self.entries@);
        let mut i: usize = 0;
        while i < self.entries.len()
            invariant
                i <= self.entries@.len(),
                ev == entry_views(self.entries@),
                forall|j: int| 0 <= j < i ==> #[trigger] ev[j].0 != address@,
            decreases self.entries@.len() - i,
        {
            if self.entries[i].0 == *address {
                proof {
                    assert(ev[i as int].0 == address@);
                    lemma_map_of_dom(ev, address@);
                }
                return Some(i);
            }
            i = i + 1;
        }
        proof {
            lemma_map_of_dom(ev, address@);
        }
        None
    }

    /// Sets the state at an address, or adds an entry for it.
    fn insert(&mut self, address: String, state: PeerConnectionState<C>)
        ensures
            final(self)@ == old(self)@.insert(address@, state@),
    {
        proof {
            use_type_invariant(&*self);
        }
        let ghost ev = entry_views(self.entries@);
        match self.find(&address) {
            Some(i) => {
                proof {
                    lemma_map_of_update(ev, i as int, state@);
                    assert(entry_views(self.entries@.update(i as int, (address, state))) =~= ev.update(
                        i as int,
                        (ev[i as int].0, state@),
                    ));
                    assert(keys_unique(ev.update(i as int, (ev[i as int].0, state@)))) by {
                        let t = ev.update(i as int, (ev[i as int].0, state@));
                        assert forall|a: int, b: int| 0 <= a < b < t.len() implies #[trigger] t[a].0
                            != #[trigger] t[b].0 by {
                            assert(t[a].0 == ev[a].0 && t[b].0 == ev[b].0);
                        }
                    }
                }
                let mut entries: Vec<(String, PeerConnectionState<C>)> = Vec::new();
                std::mem::swap(&mut entries, &mut self.entries);
                entries.set(i, (address, state));
                self.entries = entries;
                assert(ev[i as int].0 == address@);
            },
            None => {
                proof {
                    lemma_map_of_dom(ev, address@);
                    assert forall|j: int| 0 <= j < ev.len() implies #[trigger] ev[j].0
                        != address@ by {
                        if ev[j].0 == address@ {
                            assert(map_of(ev).contains_key(address@));
                        }
                    }
                    lemma_unique_push(ev, (address@, state@));
                    assert(entry_views(self.entries@.push((address, state))) =~= ev.push(
                        (address@, state@),
                    ));
                }
                let mut entries: Vec<(String, PeerConnectionState<C>)> = Vec::new();
                std::mem::swap(&mut entries, &mut self.entries);
                entries.push((address, state));
                self.entries = entries;
                assert(entry_views(self.entries@) == ev.push((address@, state@)));
                assert(ev.push((address@, state@)).drop_last() =~= ev);
            },
        }
    }

    /// Marks the connection at an address as lost; nothing changes for an
    /// unknown address.
    pub fn set_connection_lost(&mut self, address: String)
        ensures
            final(self)@ == if old(self)@.contains_key(address@) {
                old(self)@.insert(
                    address@,
                    PeerStateView { conn_state: ConnectionState::Lost, ..old(self)@[address@] },
                )
            } else {
                old(self)@
            },
    {
        self.set_state(&address, ConnectionState::Lost);
    }

    fn set_state(&mut self, address: &String, state: ConnectionState)
        ensures
            final(self)@ == if old(self)@.contains_key(address@) {
                old(self)@.insert(
                    address@,
                    PeerStateView { conn_state: state, ..old(self)@[address@] },
                )
            } else {
                old(self)@
            },
    {
        proof {
            use_type_invariant(&*self);
        }
        let ghost ev = entry_views(self.entries@);
        match self.find(address) {
            Some(i) => {
                let mut entries: Vec<(String, PeerConnectionState<C>)> = Vec::new();
                std::mem::swap(&mut entries, &mut self.entries);
                let ghost before = entries@;
                let (key, mut entry) = entries.remove(i);
                entry.set_conn_state(state);
                entries.insert(i, (key, entry));
                proof {
                    assert(entries@ =~= before.update(i as int, (key, entry)));
                    let v = PeerStateView { conn_state: state, ..ev[i as int].1 };
                    assert(entry_views(entries@) =~= ev.update(i as int, (ev[i as int].0, v)));
                    lemma_map_of_index(ev, i as int);
                    lemma_map_of_update(ev, i as int, v);
                    let t = ev.update(i as int, (ev[i as int].0, v));
                    assert forall|a: int, b: int| 0 <= a < b < t.len() implies #[trigger] t[a].0
                        != #[trigger] t[b].0 by {
                        assert(t[a].0 == ev[a].0 && t[b].0 == ev[b].0);
                    }
                }
                self.entries = entries;
            },
            None => {},
        }
    }

    /// Whether there is an entry for an address.
    pub fn contains(&self, address: &String) -> (b: bool)
        ensures
            b == self@.contains_key(address@),
    {
        self.find(address).is_some()
    }

    /// Records that the server relayed a connection request from `peer`
    /// with `token`: the entry at the peer's IP address, without its port,
    /// now holds the user name, the token, no channel, and a pending
    /// indirect connection of type `conn_type`.
    pub fn new_incomming_indirect_connection_pending(
        &mut self,
        peer: &PeerEntity,
        token: u32,
        conn_type: ConnectionType,
    )
        ensures
            final(self)@ == old(self)@.insert(
                wire_text(spec_ipv4_text(peer.ip)),
                PeerStateView {
                    username: Some(peer.username@),
                    token: Some(token),
                    channel: None,
                    conn_state: ConnectionState::IndirectConnectionPending(conn_type),
                },
            ),
    {
        let state = PeerConnectionState {
            username: Some(peer.username.clone()),
            token: Some(token),
            channel: None,
            conn_state: ConnectionState::IndirectConnectionPending(conn_type),
        };
        self.insert(peer.get_address(), state);
    }

    /// Records a direct connection with a named peer at `address`, whose
    /// handler `channel` reaches: a `PeerInit` message is pending.
    pub fn new_named_peer_connection(&mut self, username: String, address: String, channel: C)
        ensures
            final(self)@ == old(self)@.insert(
                address@,
                PeerStateView {
                    username: Some(username@),
                    token: None,
                    channel: Some(channel),
                    conn_state: ConnectionState::PeerInitPending,
                },
            ),
    {
        let state = PeerConnectionState {
            username: Some(username),
            token: None,
            channel: Some(channel),
            conn_state: ConnectionState::PeerInitPending,
        };
        self.insert(address, state);
    }

    /// Sets the state of the connection at an address; nothing changes for
    /// an unknown address. The result is always `Ok`.
    pub fn set_connection_state(&mut self, address: String, state: ConnectionState) -> (res:
        Result<(), SlskError>)
        ensures
            res is Ok,
            final(self)@ == if old(self)@.contains_key(address@) {
                old(self)@.insert(
                    address@,
                    PeerStateView { conn_state: state, ..old(self)@[address@] },
                )
            } else {
                old(self)@
            },
    {
        self.set_state(&address, state);
        Ok(())
    }

    /// Where a message to `address` goes: the channel of its entry, unless
    /// the connection was lost. The address must be known.
    pub fn route_message(&self, address: &String) -> (res: Result<&Option<C>, SlskError>)
        requires
            self@.contains_key(address@),
        ensures
            self@[address@].conn_state == ConnectionState::Lost ==> res == Err::<
                &Option<C>,
                SlskError,
            >(SlskError::PeerConnectionLost),
            self@[address@].conn_state != ConnectionState::Lost ==> (res matches Ok(c) && *c
                == self@[address@].channel),
    {
        proof {
            use_type_invariant(self);
        }
        let ghost ev = entry_views(self.entries@);
        match self.find(address) {
            Some(i) => {
                proof {
                    lemma_map_of_index(ev, i as int);
                }
                match self.entries[i].1.conn_state {
                    ConnectionState::Lost => Err(SlskError::PeerConnectionLost),
                    _ => Ok(&self.entries[i].1.channel),
                }
            },
            None => Err(SlskError::PeerConnectionLost),
        }
    }

    /// Number of connections with parents of the distributed network:
    /// established, or pending either way.
    pub fn get_parent_count(&self) -> (n: usize)
        ensures
            self@.dom().finite(),
            n == parent_addresses(self@).len(),
    {
        proof {
            use_type_invariant(self);
        }
        let ghost ev = entry_views(self.entries@);
        let mut count: usize = 0;
        let mut i: usize = 0;
        while i < self.entries.len()
            invariant
                i <= self.entries@.len(),
                ev == entry_views(self.entries@),
                count == parent_count(ev.subrange(0, i as int)),
                count <= i,
            decreases self.entries@.len() - i,
        {
            proof {
                assert(ev.subrange(0, i + 1).drop_last() =~= ev.subrange(0, i as int));
                assert(ev[i as int].1.conn_state == self.entries@[i as int].1.conn_state);
            }
            if self.entries[i].1.conn_state.parent() {
                count = count + 1;
            }
            i = i + 1;
        }
        proof {
            assert(ev.subrange(0, ev.len() as int) =~= ev);
            lemma_parent_count(ev);
        }
        count
    }
}

/// A message to a peer whose connection was marked lost is refused: after
/// `set_connection_lost` on a known address, the address is still known, as
/// `route_message` requires, and its state is the one that it refuses with
/// `PeerConnectionLost`.
pub proof fn lemma_lost_connection_refused<C>(
    before: Map<Seq<char>, PeerStateView<C>>,
    after: Map<Seq<char>, PeerStateView<C>>,
    address: Seq<char>,
)
    requires
        before.contains_key(address),
        after == before.insert(
            address,
            PeerStateView { conn_state: ConnectionState::Lost, ..before[address] },
        ),
    ensures
        after.contains_key(address),
        after[address].conn_state == ConnectionState::Lost,
        after[address].channel == before[address].channel,
        forall|a: Seq<char>| a != address ==> after.contains_key(a) == before.contains_key(a),
{
}

/// A copy of a connection state; the channel, when there is one, is cloned.
fn copy_state<C: Clone>(s: &PeerConnectionState<C>) -> (r: PeerConnectionState<C>)
    ensures
        r@.username == s@.username,
        r@.token == s@.token,
        r@.conn_state == s@.conn_state,
        r.channel is Some <==> s.channel is Some,
        r.channel matches Some(c) ==> (s.channel matches Some(d) && cloned(d, c)),
{
    PeerConnectionState {
        username: clone_opt_string(&s.username),
        token: s.token,
        channel: match &s.channel {
            Some(c) => Some(c.clone()),
            None => None,
        },
        conn_state: s.conn_state,
    }
}

impl<C: Clone> SenderPool<C> {
    /// Records a connection from an unknown peer at `address`, whose handler
    /// `channel` reaches: a `PeerInit` message is pending. Returns a copy of
    /// the new state.
    pub fn new_peer_connection(&mut self, address: &str, channel: C) -> (r: PeerConnectionState<C>)
        ensures
            final(self)@ == old(self)@.insert(
                address@,
                PeerStateView {
                    username: None,
                    token: None,
                    channel: Some(channel),
                    conn_state: ConnectionState::PeerInitPending,
                },
            ),
            r@.username is None,
            r@.token is None,
            r.channel matches Some(c) && cloned(channel, c),
            r.conn_state == ConnectionState::PeerInitPending,
    {
        let state = PeerConnectionState {
            username: None,
            token: None,
            channel: Some(channel),
            conn_state: ConnectionState::PeerInitPending,
        };
        let state_copy = copy_state(&state);
        self.insert(address.to_string(), state);
        state_copy
    }

    /// Gives the known entry at `address` the new handler `channel` and
    /// returns a copy of its state; for an unknown address nothing changes
    /// and the channel is handed back.
    fn update_state(&mut self, address: &String, channel: C) -> (r: Result<
        PeerConnectionState<C>,
        C,
    >)
        ensures
            old(self)@.contains_key(address@) ==> final(self)@ == old(self)@.insert(
                address@,
                PeerStateView { channel: Some(channel), ..old(self)@[address@] },
            ),
            old(self)@.contains_key(address@) ==> (r matches Ok(s) && s@.username
                == old(self)@[address@].username && s@.token == old(self)@[address@].token
                && s.conn_state == old(self)@[address@].conn_state && (s.channel matches Some(
                c) && cloned(channel, c))),
            !old(self)@.contains_key(address@) ==> r == Err::<PeerConnectionState<C>, C>(channel)
                && final(self)@ == old(self)@,
    {
        proof {
            use_type_invariant(&*self);
        }
        let ghost ev = entry_views(self.entries@);
        match self.find(address) {
            Some(i) => {
                proof {
                    lemma_map_of_index(ev, i as int);
                }
                let state = PeerConnectionState {
                    username: clone_opt_string(&self.entries[i].1.username),
                    token: self.entries[i].1.token,
                    channel: Some(channel),
                    conn_state: self.entries[i].1.conn_state,
                };
                let state_copy = copy_state(&state);
                self.insert(address.clone(), state);
                Ok(state_copy)
            },
            None => Err(channel),
        }
    }

    /// Gives the entry at `address` the new handler `channel`, or creates
    /// one as `new_peer_connection` does. Returns a copy of the state.
    pub fn update_or_create(&mut self, address: &str, channel: C) -> (r: PeerConnectionState<C>)
        ensures
            old(self)@.contains_key(address@) ==> final(self)@ == old(self)@.insert(
                address@,
                PeerStateView { channel: Some(channel), ..old(self)@[address@] },
            ),
            !old(self)@.contains_key(address@) ==> final(self)@ == old(self)@.insert(
                address@,
                PeerStateView {
                    username: None,
                    token: None,
                    channel: Some(channel),
                    conn_state: ConnectionState::PeerInitPending,
                },
            ),
            r@.username == final(self)@[address@].username,
            r@.token == final(self)@[address@].token,
            r.conn_state == final(self)@[address@].conn_state,
            r.channel matches Some(c) && cloned(channel, c),
    {
        let key = address.to_string();
        match self.update_state(&key, channel) {
            Ok(state) => state,
            Err(channel) => self.new_peer_connection(address, channel),
        }
    }
}

} // verus!
