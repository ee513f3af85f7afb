//! Rooms, the connections that joined them, and the life of a connection.
//!
//! A room's member set refers to connections by their number and does not own them; each
//! connection keeps the list of the rooms it joined, so that closing it touches those
//! rooms only.
pub mod structs;

use crate::controller::texts;
use crate::websocket::structs::{parse_room, room_key, JoinRequest, Room};
use hashbrown::{HashMap, HashSet};
use vstd::prelude::*;

verus! {

/// `hashbrown::HashMap`. Nothing is seen of what is inside such a value; what it holds
/// goes by the name `map_sets`.
#[verifier::external_type_specification]
#[verifier::external_body]
#[verifier::reject_recursive_types(K)]
#[verifier::reject_recursive_types(V)]
#[verifier::reject_recursive_types(S)]
pub struct ExHashMap<K, V, S>(HashMap<K, V, S>);

/// `hashbrown::HashSet`. Nothing is seen of what is inside such a value; what it holds
/// goes by the name `set_items`.
#[verifier::external_type_specification]
#[verifier::external_body]
#[verifier::reject_recursive_types(T)]
#[verifier::reject_recursive_types(S)]
pub struct ExHashSet<T, S>(HashSet<T, S>);

/// `hashbrown::hash_map::DefaultHashBuilder`, with which the maps and sets hash.
#[verifier::external_type_specification]
#[verifier::external_body]
pub struct ExDefaultHashBuilder(hashbrown::hash_map::DefaultHashBuilder);

/// The numbers that a `HashSet` holds.
pub uninterp spec fn set_items(set: HashSet<u64>) -> Set<u64>;

/// The sets that a `HashMap` holds, each under its key.
pub uninterp spec fn map_sets(map: HashMap<u64, HashSet<u64>>) -> Map<u64, Set<u64>>;

/// No numbers.
pub open spec fn no_items() -> Set<u64> {
    Set::empty()
}

/// No sets.
pub open spec fn no_sets() -> Map<u64, Set<u64>> {
    Map::empty()
}

/// The set filed under `key`, or no numbers where there is none.
pub open spec fn set_at(sets: Map<u64, Set<u64>>, key: u64) -> Set<u64> {
    if sets.contains_key(key) {
        sets[key]
    } else {
        Set::empty()
    }
}

/// `HashMap::new`: an empty map.
#[verifier::external_body]
fn map_new() -> (map: HashMap<u64, HashSet<u64>>)
    ensures
        map_sets(map) == no_sets(),
{
    HashMap::new()
}

/// `HashMap::get`: the set filed under `key`, if there is one.
#[verifier::external_body]
fn map_get(map: &HashMap<u64, HashSet<u64>>, key: u64) -> (found: Option<&HashSet<u64>>)
    ensures
        found is Some <==> map_sets(*map).contains_key(key),
        found matches Some(set) ==> set_items(*set) == map_sets(*map)[key],
{
    map.get(&key)
}

/// `HashMap::get_mut`: a mutable reference to the set filed under `key`, if there is
/// one. What the reference holds in the end is what the map then holds under `key`;
/// nothing else in the map changes.
#[verifier::external_body]
fn map_get_mut(map: &mut HashMap<u64, HashSet<u64>>, key: u64) -> (found: Option<
    &mut HashSet<u64>,
>)
    ensures
        found is Some <==> map_sets(*old(map)).contains_key(key),
        found matches Some(set) ==> set_items(*set) == map_sets(*old(map))[key] && map_sets(
            *final(map),
        ) == map_sets(*old(map)).insert(key, set_items(*final(set))),
        found is None ==> map_sets(*final(map)) == map_sets(*old(map)),
{
    map.get_mut(&key)
}

/// `HashMap::entry` and `Entry::or_insert` with `HashSet::new`: a mutable reference to
/// the set filed under `key`, after an empty set was filed there if there was none.
/// What the reference holds in the end is what the map then holds under `key`; nothing
/// else in the map changes.
#[verifier::external_body]
fn map_entry_or_insert(map: &mut HashMap<u64, HashSet<u64>>, key: u64) -> (set: &mut HashSet<u64>)
    ensures
        set_items(*set) == set_at(map_sets(*old(map)), key),
        map_sets(*final(map)) == map_sets(*old(map)).insert(key, set_items(*final(set))),
{
    map.entry(key).or_insert(HashSet::new())
}

/// `HashSet::new`: an empty set.
#[verifier::external_body]
fn set_new() -> (set: HashSet<u64>)
    ensures
        set_items(set) == no_items(),
{
    HashSet::new()
}

/// `HashSet::insert`: adds `item`, and says whether it was not there before.
#[verifier::external_body]
fn set_insert(set: &mut HashSet<u64>, item: u64) -> (fresh: bool)
    ensures
        set_items(*final(set)) == set_items(*old(set)).insert(item),
        fresh == !set_items(*old(set)).contains(item),
{
    set.insert(item)
}

/// `HashSet::remove`: takes `item` out, and says whether it was there.
#[verifier::external_body]
fn set_remove(set: &mut HashSet<u64>, item: u64) -> (present: bool)
    ensures
        set_items(*final(set)) == set_items(*old(set)).remove(item),
        present == set_items(*old(set)).contains(item),
{
    set.remove(&item)
}

/// `HashSet::iter`: every number of the set once, in an order that nothing fixes.
#[verifier::external_body]
fn set_to_vec(set: &HashSet<u64>) -> (items: Vec<u64>)
    ensures
        items@.to_set() == set_items(*set),
        items@.no_duplicates(),
{
    set.iter().copied().collect()
}

/// The members of each room that has an entry.
pub type Members = Map<Room, Set<u64>>;

/// The members of `room`, or nobody where the room has no entry.
pub open spec fn members_of(rooms: Members, room: Room) -> Set<u64> {
    if rooms.contains_key(room) {
        rooms[room]
    } else {
        Set::empty()
    }
}

/// The rooms after `connection` joined `room`: the room has an entry, and the
/// connection is one of its members.
pub open spec fn joined(rooms: Members, room: Room, connection: u64) -> Members {
    rooms.insert(room, members_of(rooms, room).insert(connection))
}

/// The rooms after `connection` joined each room of `list` in turn.
pub open spec fn joined_all(rooms: Members, list: Seq<Room>, connection: u64) -> Members
    decreases list.len(),
{
    if list.len() == 0 {
        rooms
    } else {
        joined(joined_all(rooms, list.drop_last(), connection), list.last(), connection)
    }
}

/// The rooms after `connection` left every room of `left`: the same rooms have an
/// entry, and the connection is a member of none of those it left.
pub open spec fn left_all(rooms: Members, left: Set<Room>, connection: u64) -> Members {
    Map::new(
        |room: Room| rooms.contains_key(room),
        |room: Room|
            if left.contains(room) {
                rooms[room].remove(connection)
            } else {
                rooms[room]
            },
    )
}

/// The rooms that a list of names stands for, in the order of the names. A name that
/// stands for no room is passed over.
pub open spec fn valid_rooms(names: Seq<Seq<char>>) -> Seq<Room>
    decreases names.len(),
{
    if names.len() == 0 {
        Seq::empty()
    } else {
        match parse_room(names.last()) {
            Some(room) => valid_rooms(names.drop_last()).push(room),
            None => valid_rooms(names.drop_last()),
        }
    }
}

/// Whether the rooms joined by a connection, as it remembers them, hold every room
/// that has the connection as a member.
pub open spec fn covers(remembered: Set<Room>, rooms: Members, connection: u64) -> bool {
    forall|room: Room| #[trigger]
        rooms.contains_key(room) && rooms[room].contains(connection) ==> remembered.contains(room)
}

/// The registry of rooms: for each room that was ever joined, its current members.
pub struct Rooms {
    members: HashMap<u64, HashSet<u64>>,
}

impl View for Rooms {
    type V = Map<Room, Set<u64>>;

    /// The members of each room that has an entry.
    closed spec fn view(&self) -> Map<Room, Set<u64>> {
        Map::new(
            |room: Room| map_sets(self.members).contains_key(room_key(room)),
            |room: Room| map_sets(self.members)[room_key(room)],
        )
    }
}

impl Rooms {
    /// A registry without rooms.
    pub fn new() -> (rooms: Rooms)
        ensures
            rooms@ == Map::<Room, Set<u64>>::empty(),
    {
        let rooms = Rooms { members: map_new() };
        assert(rooms@ =~= Map::<Room, Set<u64>>::empty());
        rooms
    }

    /// Makes `connection` a member of `room`, which gets an entry if it had none.
    pub fn join(&mut self, room: Room, connection: u64)
        ensures
            final(self)@ == joined(old(self)@, room, connection),
    {
        let key: u64 = room.key();
        let set = map_entry_or_insert(&mut self.members, key);
        let _ = set_insert(set, connection);
        proof {
            let before = map_sets(old(self).members);
            let after = map_sets(self.members);
            assert forall|other: Room| #[trigger] self@.contains_key(other) == joined(
                old(self)@,
                room,
                connection,
            ).contains_key(other) by {
                if room_key(other) == key {
                    crate::websocket::structs::lemma_room_key_injective(other, room);
                }
            }
            assert forall|other: Room| #[trigger] self@.contains_key(other) implies self@[other]
                == joined(old(self)@, room, connection)[other] by {
                if room_key(other) == key {
                    crate::websocket::structs::lemma_room_key_injective(other, room);
                }
            }
            assert(self@ =~= joined(old(self)@, room, connection));
        }
    }

    /// Takes `connection` out of `room`. The room keeps its entry, even without members;
    /// a room without an entry stays without one.
    pub fn leave(&mut self, room: Room, connection: u64)
        ensures
            final(self)@ == left_all(old(self)@, set![room], connection),
    {
        let key: u64 = room.key();
        match map_get_mut(&mut self.members, key) {
            Some(set) => {
                let _ = set_remove(set, connection);
            },
            None => {},
        }
        proof {
            let goal = left_all(old(self)@, set![room], connection);
            assert forall|other: Room| #[trigger] self@.contains_key(other) == goal.contains_key(
                other,
            ) by {}
            assert forall|other: Room| #[trigger] self@.contains_key(other) implies self@[other]
                == goal[other] by {
                if room_key(other) == key {
                    crate::websocket::structs::lemma_room_key_injective(other, room);
                }
            }
            assert(self@ =~= goal);
        }
    }

    /// The members of `room`, each once and in no particular order, or `None` where the
    /// room has no entry.
    pub fn members(&self, room: Room) -> (members: Option<Vec<u64>>)
        ensures
            members is Some <==> self@.contains_key(room),
            members matches Some(list) ==> list@.to_set() == self@[room] && list@.no_duplicates(),
    {
        match map_get(&self.members, room.key()) {
            Some(set) => Some(set_to_vec(set)),
            None => None,
        }
    }
}

/// Counts the connections that are open.
#[derive(Debug, PartialEq, Eq)]
pub struct ConnectedClients {
    count: usize,
}

impl ConnectedClients {
    /// The number of open connections.
    pub closed spec fn count(&self) -> usize {
        self.count
    }

    /// A count of no connections.
    pub fn new() -> (clients: ConnectedClients)
        ensures
            clients.count() == 0,
    {
        ConnectedClients { count: 0 }
    }

    /// One more connection is open. The count wraps around at the end of its range.
    pub fn opened(&mut self)
        ensures
            final(self).count() == (if old(self).count() == usize::MAX {
                0
            } else {
                old(self).count() + 1
            }),
    {
        self.count = self.count.wrapping_add(1);
    }

    /// One connection fewer is open. The count wraps around at the end of its range.
    pub fn closed(&mut self)
        ensures
            final(self).count() == (if old(self).count() == 0 {
                usize::MAX as int
            } else {
                old(self).count() - 1
            }),
    {
        self.count = self.count.wrapping_sub(1);
    }

    /// The number of open connections.
    pub fn load(&self) -> (count: usize)
        ensures
            count == self.count(),
    {
        self.count
    }
}

/// One connection: its number, and the rooms it joined.
pub struct Socket {
    out: u64,
    rooms: HashSet<u64>,
}

impl Socket {
    /// The number by which the rooms refer to the connection.
    pub closed spec fn out(&self) -> u64 {
        self.out
    }

    /// The rooms that the connection joined.
    pub closed spec fn rooms(&self) -> Set<Room> {
        Set::new(|room: Room| set_items(self.rooms).contains(room_key(room)))
    }

    /// A connection that joined no room yet.
    pub fn new(out: u64) -> (socket: Socket)
        ensures
            socket.out() == out,
            socket.rooms() == Set::<Room>::empty(),
    {
        let socket = Socket { out, rooms: set_new() };
        assert(socket.rooms() =~= Set::<Room>::empty());
        socket
    }

    /// The number by which the rooms refer to the connection.
    pub fn id(&self) -> (out: u64)
        ensures
            out == self.out(),
    {
        self.out
    }

    /// The connection was opened: it is counted.
    pub fn on_open(&mut self, clients: &mut ConnectedClients)
        ensures
            final(self).out() == old(self).out(),
            final(self).rooms() == old(self).rooms(),
            final(clients).count() == (if old(clients).count() == usize::MAX {
                0
            } else {
                old(clients).count() + 1
            }),
    {
        clients.opened();
    }

    /// The connection asked to join rooms: it joins each room that a name of the request
    /// stands for, and remembers it. A name that stands for no room is passed over, and
    /// no room gets an entry on its account.
    pub fn on_message(&mut self, rooms: &mut Rooms, request: &JoinRequest)
        ensures
            final(self).out() == old(self).out(),
            final(rooms)@ == joined_all(
                old(rooms)@,
                valid_rooms(texts(request.join@)),
                old(self).out(),
            ),
            final(self).rooms() == old(self).rooms().union(
                valid_rooms(texts(request.join@)).to_set(),
            ),
    {
        let ghost names = texts(request.join@);
        let mut i: usize = 0;
        proof {
            assert(names.subrange(0, 0) =~= Seq::<Seq<char>>::empty());
            assert(valid_rooms(names.subrange(0, 0)).to_set() =~= Set::<Room>::empty());
            assert(old(self).rooms().union(Set::<Room>::empty()) =~= old(self).rooms());
        }
        while i < request.join.len()
            invariant
                i <= request.join.len(),
                names == texts(request.join@),
                self.out == old(self).out,
                rooms@ == joined_all(old(rooms)@, valid_rooms(names.subrange(0, i as int)), self.out),
                self.rooms() == old(self).rooms().union(
                    valid_rooms(names.subrange(0, i as int)).to_set(),
                ),
            decreases request.join.len() - i,
        {
            let ghost before = valid_rooms(names.subrange(0, i as int));
            let ghost prefix = names.subrange(0, i + 1);
            let ghost remembered = self.rooms();
            proof {
                assert(prefix.drop_last() =~= names.subrange(0, i as int));
                assert(prefix.last() == request.join@[i as int]@);
            }
            match Room::from_str(request.join[i].as_str()) {
                Ok(room) => {
                    rooms.join(room, self.out);
                    let _ = set_insert(&mut self.rooms, room.key());
                    proof {
                        let after = valid_rooms(prefix);
                        assert(after == before.push(room));
                        assert(after.drop_last() =~= before);
                        assert(self.rooms() =~= remembered.insert(room)) by {
                            assert forall|other: Room| self.rooms().contains(other)
                                == remembered.insert(room).contains(other) by {
                                if room_key(other) == room_key(room) {
                                    crate::websocket::structs::lemma_room_key_injective(other, room);
                                }
                            }
                        }
                        assert(after.to_set() =~= before.to_set().insert(room)) by {
                            assert forall|other: Room| after.to_set().contains(other)
                                == before.to_set().insert(room).contains(other) by {
                                if before.contains(other) {
                                    let k = choose|k: int| 0 <= k < before.len() && before[k] == other;
                                    assert(after[k] == other);
                                }
                                if other == room {
                                    assert(after[after.len() - 1] == room);
                                }
                                if after.contains(other) {
                                    let k = choose|k: int| 0 <= k < after.len() && after[k] == other;
                                    if k < before.len() {
                                        assert(before[k] == other);
                                    }
                                }
                            }
                        }
                        assert(self.rooms() =~= old(self).rooms().union(after.to_set()));
                    }
                },
                Err(_) => {},
            }
            i += 1;
        }
        proof {
            assert(names.subrange(0, i as int) =~= names);
        }
    }

    /// The connection was closed: it leaves every room that it remembers, and is no
    /// longer counted. Only those rooms are touched. Where the connection remembers every
    /// room that it is a member of, it is a member of no room afterwards.
    pub fn on_close(&mut self, rooms: &mut Rooms, clients: &mut ConnectedClients)
        ensures
            final(self).out() == old(self).out(),
            final(self).rooms() == old(self).rooms(),
            final(rooms)@ == left_all(old(rooms)@, old(self).rooms(), old(self).out()),
            covers(old(self).rooms(), old(rooms)@, old(self).out()) ==> forall|room: Room|
                !(#[trigger] members_of(final(rooms)@, room)).contains(old(self).out()),
            final(clients).count() == (if old(clients).count() == 0 {
                usize::MAX as int
            } else {
                old(clients).count() - 1
            }),
    {
        let keys = set_to_vec(&self.rooms);
        let ghost start = map_sets(rooms.members);
        let ghost out = self.out;
        let mut i: usize = 0;
        assert(map_sets(rooms.members) =~= Map::new(
            |key: u64| start.contains_key(key),
            |key: u64|
                if keys@.subrange(0, 0).contains(key) {
                    start[key].remove(out)
                } else {
                    start[key]
                },
        ));
        while i < keys.len()
            invariant
                i <= keys.len(),
                out == self.out,
                map_sets(rooms.members) == Map::new(
                    |key: u64| start.contains_key(key),
                    |key: u64|
                        if keys@.subrange(0, i as int).contains(key) {
                            start[key].remove(out)
                        } else {
                            start[key]
                        },
                ),
            decreases keys.len() - i,
        {
            let key: u64 = keys[i];
            let ghost before = map_sets(rooms.members);
            match map_get_mut(&mut rooms.members, key) {
                Some(set) => {
                    let _ = set_remove(set, self.out);
                },
                None => {},
            }
            proof {
                let done = keys@.subrange(0, i as int);
                let more = keys@.subrange(0, i + 1);
                assert(more =~= done.push(key));
                assert forall|k: u64| more.contains(k) == (done.contains(k) || k == key) by {
                    if done.contains(k) {
                        let j = choose|j: int| 0 <= j < done.len() && done[j] == k;
                        assert(more[j] == k);
                    }
                    if k == key {
                        assert(more[more.len() - 1] == k);
                    }
                    if more.contains(k) {
                        let j = choose|j: int| 0 <= j < more.len() && more[j] == k;
                        if j < done.len() {
                            assert(done[j] == k);
                        }
                    }
                }
                let goal = Map::new(
                    |k: u64| start.contains_key(k),
                    |k: u64|
                        if more.contains(k) {
                            start[k].remove(out)
                        } else {
                            start[k]
                        },
                );
                let now = map_sets(rooms.members);
                assert forall|k: u64| now.dom().contains(k) == goal.dom().contains(k) by {
                    assert(before.contains_key(k) == start.contains_key(k));
                }
                assert(now.dom() =~= goal.dom());
                assert forall|k: u64| now.dom().contains(k) implies #[trigger] now[k] == goal[k] by {
                    assert(before.contains_key(k));
                    if k == key {
                        assert(before[k].remove(out) =~= start[k].remove(out));
                    } else {
                        assert(now[k] == before[k]);
                    }
                }
                assert(map_sets(rooms.members) =~= goal);
            }
            i += 1;
        }
        clients.closed();
        proof {
            assert(keys@.subrange(0, i as int) =~= keys@);
            let goal = left_all(old(rooms)@, old(self).rooms(), out);
            assert forall|room: Room| #[trigger] goal.contains_key(room) implies rooms@[room]
                == goal[room] by {
                assert(keys@.contains(room_key(room)) == keys@.to_set().contains(room_key(room)));
            }
            assert(rooms@ =~= goal);
            if covers(old(self).rooms(), old(rooms)@, out) {
                assert forall|room: Room| !(#[trigger] members_of(rooms@, room)).contains(out) by {
                    if rooms@.contains_key(room) && !old(self).rooms().contains(room) {
                        assert(old(rooms)@.contains_key(room));
                    }
                }
            }
        }
    }
}

/// A name that stands for no room changes nothing in what a request joins.
pub proof fn lemma_unknown_name_ignored(names: Seq<Seq<char>>, name: Seq<char>)
    requires
        parse_room(name) is None,
    ensures
        valid_rooms(names.push(name)) == valid_rooms(names),
{
    assert(names.push(name).drop_last() =~= names);
}

/// Joining rooms gives an entry to the rooms that are joined, and to no other.
pub proof fn lemma_joined_all_entries(rooms: Members, list: Seq<Room>, connection: u64)
    ensures
        joined_all(rooms, list, connection).dom() == rooms.dom().union(list.to_set()),
    decreases list.len(),
{
    if list.len() == 0 {
        assert(list.to_set() =~= Set::<Room>::empty());
        assert(rooms.dom().union(list.to_set()) =~= rooms.dom());
    } else {
        let rest = list.drop_last();
        lemma_joined_all_entries(rooms, rest, connection);
        assert forall|room: Room| list.to_set().contains(room) == (rest.to_set().contains(room)
            || room == list.last()) by {
            if rest.contains(room) {
                let k = choose|k: int| 0 <= k < rest.len() && rest[k] == room;
                assert(list[k] == room);
            }
            if room == list.last() {
                assert(list[list.len() - 1] == room);
            }
            if list.contains(room) {
                let k = choose|k: int| 0 <= k < list.len() && list[k] == room;
                if k < rest.len() {
                    assert(rest[k] == room);
                }
            }
        }
        assert(joined_all(rooms, list, connection).dom() =~= rooms.dom().union(list.to_set()));
    }
}

/// Who is a member of a room after a connection joined a list of rooms: the members
/// from before, and the connection where the room is on the list.
pub proof fn lemma_joined_all_members(rooms: Members, list: Seq<Room>, connection: u64, room: Room)
    ensures
        members_of(joined_all(rooms, list, connection), room) == (if list.contains(room) {
            members_of(rooms, room).insert(connection)
        } else {
            members_of(rooms, room)
        }),
    decreases list.len(),
{
    if list.len() > 0 {
        let rest = list.drop_last();
        lemma_joined_all_members(rooms, rest, connection, room);
        if rest.contains(room) {
            let k = choose|k: int| 0 <= k < rest.len() && rest[k] == room;
            assert(list[k] == room);
        }
        if room == list.last() {
            assert(list[list.len() - 1] == room);
        }
        if list.contains(room) {
            let k = choose|k: int| 0 <= k < list.len() && list[k] == room;
            if k < rest.len() {
                assert(rest[k] == room);
            }
        }
        let before = joined_all(rooms, rest, connection);
        if room == list.last() {
            assert(members_of(before, room).insert(connection) =~= members_of(rooms, room).insert(
                connection,
            ));
        }
    }
}

/// A connection that remembers every room it is a member of still does so after it
/// joined more rooms and remembered them, and after any other connection joined rooms.
pub proof fn lemma_join_keeps_cover(
    remembered: Set<Room>,
    rooms: Members,
    connection: u64,
    list: Seq<Room>,
    joiner: u64,
)
    requires
        covers(remembered, rooms, connection),
    ensures
        joiner == connection ==> covers(
            remembered.union(list.to_set()),
            joined_all(rooms, list, joiner),
            connection,
        ),
        joiner != connection ==> covers(remembered, joined_all(rooms, list, joiner), connection),
{
    let after = joined_all(rooms, list, joiner);
    assert forall|room: Room| #[trigger]
        after.contains_key(room) && after[room].contains(connection) implies (if joiner
        == connection {
        remembered.union(list.to_set()).contains(room)
    } else {
        remembered.contains(room)
    }) by {
        lemma_joined_all_members(rooms, list, joiner, room);
        assert(members_of(after, room) == after[room]);
        if members_of(rooms, room).contains(connection) {
            assert(rooms.contains_key(room) && rooms[room].contains(connection));
        }
    }
}

/// A connection that remembers every room it is a member of still does so after any
/// other connection left rooms.
pub proof fn lemma_leave_keeps_cover(
    remembered: Set<Room>,
    rooms: Members,
    connection: u64,
    left: Set<Room>,
    leaver: u64,
)
    requires
        covers(remembered, rooms, connection),
    ensures
        covers(remembered, left_all(rooms, left, leaver), connection),
{
    let after = left_all(rooms, left, leaver);
    assert forall|room: Room| #[trigger]
        after.contains_key(room) && after[room].contains(connection) implies remembered.contains(
        room,
    ) by {
        assert(rooms.contains_key(room) && rooms[room].contains(connection));
    }
}

/// Nothing is sent to a connection that was closed: once a connection that remembers
/// every room it is a member of has left the rooms it remembers, no room has it as a
/// member, so that whatever is published goes to others.
pub proof fn lemma_closed_connection_hears_nothing(
    remembered: Set<Room>,
    rooms: Members,
    connection: u64,
    room: Room,
)
    requires
        covers(remembered, rooms, connection),
    ensures
        !members_of(left_all(rooms, remembered, connection), room).contains(connection),
{
    let after = left_all(rooms, remembered, connection);
    if after.contains_key(room) && !remembered.contains(room) {
        assert(rooms.contains_key(room));
    }
}

} // verus!
