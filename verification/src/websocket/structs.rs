//! The names of rooms, actions and data types as they appear on the wire.
use crate::controller::section::LockSection;
use crate::text::{decimal, format_i64, lemma_digits, parse_i32, parse_i32_spec, str_eq};
use crate::websocket::Rooms;
use vstd::prelude::*;
use vstd::string::*;

verus! {

/// A request from a client to join certain rooms.
/// Each element is read with `Room::from_str`; what cannot be read is ignored.
#[derive(Debug, PartialEq, Eq)]
pub struct JoinRequest {
    pub join: Vec<String>,
}

/// Room to send a `Message` to.
#[derive(Debug, Hash, PartialEq, Eq, Structural, Clone, Copy)]
pub enum Room {
    User,
    ThreadCreate,
    Thread(i32),
}

/// What action is the `data` field representing in a `Message`?
#[derive(Debug, PartialEq, Eq, Structural, Clone, Copy)]
pub enum Action {
    Create,
    Update,
    Delete,
}

/// What type is the `data` field in a `Message`?
#[derive(Debug, PartialEq, Eq, Structural, Clone, Copy)]
pub enum DataType {
    Event,
    Section,
    Thread,
    User,
}

/// Whether `s` begins with `prefix`.
pub open spec fn has_prefix(s: Seq<char>, prefix: Seq<char>) -> bool {
    s.len() >= prefix.len() && s.subrange(0, prefix.len() as int) == prefix
}

/// The name of a room: `user`, `thread_create`, or `thread_` and the thread's id in decimal.
pub open spec fn room_name(room: Room) -> Seq<char> {
    match room {
        Room::User => "user"@,
        Room::ThreadCreate => "thread_create"@,
        Room::Thread(id) => "thread_"@ + decimal(id as int),
    }
}

/// The room that a name stands for, if it stands for one.
pub open spec fn parse_room(s: Seq<char>) -> Option<Room> {
    if s == "user"@ {
        Some(Room::User)
    } else if s == "thread_create"@ {
        Some(Room::ThreadCreate)
    } else if has_prefix(s, "thread_"@) {
        match parse_i32_spec(s.skip(7)) {
            Some(id) => Some(Room::Thread(id)),
            None => None,
        }
    } else {
        None
    }
}

/// The word for an action.
pub open spec fn action_name(action: Action) -> Seq<char> {
    match action {
        Action::Create => "create"@,
        Action::Update => "update"@,
        Action::Delete => "delete"@,
    }
}

/// The word for a data type.
pub open spec fn data_type_name(data_type: DataType) -> Seq<char> {
    match data_type {
        DataType::Event => "event"@,
        DataType::Section => "section"@,
        DataType::Thread => "thread"@,
        DataType::User => "user"@,
    }
}

/// The code under which a room is filed: a thread's room under its id taken as an
/// unsigned 32-bit number, the two fixed rooms just above that range.
pub open spec fn room_key(room: Room) -> u64 {
    match room {
        Room::Thread(id) => (id as int + 0x8000_0000) as u64,
        Room::User => 0x1_0000_0000u64,
        Room::ThreadCreate => 0x1_0000_0001u64,
    }
}

/// Every room's name reads back as that room.
pub proof fn lemma_room_name_round_trip(room: Room)
    ensures
        parse_room(room_name(room)) == Some(room),
{
    reveal_strlit("user");
    reveal_strlit("thread_create");
    reveal_strlit("thread_");
    match room {
        Room::User => {},
        Room::ThreadCreate => {
            assert("thread_create"@ != "user"@);
        },
        Room::Thread(id) => {
            let d = decimal(id as int);
            let s = room_name(room);
            crate::text::lemma_parse_decimal(id as int);
            if id < 0 {
                lemma_digits((-id) as nat);
            } else {
                lemma_digits(id as nat);
            }
            assert(d.len() >= 1);
            assert(s.len() == 7 + d.len());
            assert(s.subrange(0, 7) =~= "thread_"@);
            assert(s.skip(7) =~= d);
            assert(s[0] == 't');
            assert(s != "user"@);
            assert(s[7] == d[0]);
            assert(d[0] != 'c') by {
                if id < 0 {
                    assert(d[0] == '-');
                } else {
                    assert(crate::text::is_digit(d[0]));
                }
            }
            assert("thread_create"@[7] == 'c');
            assert(s != "thread_create"@);
        },
    }
}

/// Two rooms with the same name are the same room.
pub proof fn lemma_room_name_injective(a: Room, b: Room)
    requires
        room_name(a) == room_name(b),
    ensures
        a == b,
{
    lemma_room_name_round_trip(a);
    lemma_room_name_round_trip(b);
}

/// Two rooms filed under the same code are the same room.
pub proof fn lemma_room_key_injective(a: Room, b: Room)
    requires
        room_key(a) == room_key(b),
    ensures
        a == b,
{
}

impl Room {
    /// The room's name, as clients write it in a join request.
    pub fn to_string(&self) -> (name: String)
        ensures
            name@ == room_name(*self),
    {
        match self {
            Room::User => "user".to_owned(),
            Room::ThreadCreate => "thread_create".to_owned(),
            Room::Thread(id) => {
                let mut name = "thread_".to_owned();
                let number = format_i64(*id as i64);
                name.append(number.as_str());
                name
            },
        }
    }

    /// Reads a room's name. A name that begins with `thread_` and does not go on with
    /// an id is refused as an invalid thread id, any other as an unknown room name.
    pub fn from_str(string: &str) -> (room: Result<Room, &'static str>)
        ensures
            room is Ok <==> parse_room(string@) is Some,
            room matches Ok(found) ==> parse_room(string@) == Some(found),
            room matches Err(reason) ==> reason@ == (if has_prefix(string@, "thread_"@) {
                "invalid thread id"@
            } else {
                "unknown room name"@
            }),
    {
        proof {
            reveal_strlit("user");
            reveal_strlit("thread_create");
            reveal_strlit("thread_");
        }
        if str_eq(string, "user") {
            return Ok(Room::User);
        }
        if str_eq(string, "thread_create") {
            return Ok(Room::ThreadCreate);
        }
        let len: usize = string.unicode_len();
        if len >= 7 && string.get_char(0) == 't' && string.get_char(1) == 'h' && string.get_char(2)
            == 'r' && string.get_char(3) == 'e' && string.get_char(4) == 'a' && string.get_char(5)
            == 'd' && string.get_char(6) == '_' {
            assert(string@.subrange(0, 7) =~= "thread_"@);
            let rest = string.substring_char(7, len);
            assert(rest@ == string@.skip(7));
            match parse_i32(rest) {
                Some(id) => Ok(Room::Thread(id)),
                None => Err("invalid thread id"),
            }
        } else {
            proof {
                if string@.len() >= 7 {
                    let head = string@.subrange(0, 7);
                    assert(head[0] == string@[0] && head[1] == string@[1] && head[2] == string@[2]
                        && head[3] == string@[3] && head[4] == string@[4] && head[5] == string@[5]
                        && head[6] == string@[6]);
                }
            }
            Err("unknown room name")
        }
    }

    /// The code under which the room is filed.
    pub fn key(&self) -> (key: u64)
        ensures
            key == room_key(*self),
    {
        match self {
            Room::Thread(id) => (*id as i64 + 0x8000_0000) as u64,
            Room::User => 0x1_0000_0000,
            Room::ThreadCreate => 0x1_0000_0001,
        }
    }
}

impl Action {
    /// The word for the action in an outgoing message.
    pub fn to_string(&self) -> (name: String)
        ensures
            name@ == action_name(*self),
    {
        match self {
            Action::Create => "create".to_owned(),
            Action::Update => "update".to_owned(),
            Action::Delete => "delete".to_owned(),
        }
    }
}

impl DataType {
    /// The word for the data type in an outgoing message.
    pub fn to_string(&self) -> (name: String)
        ensures
            name@ == data_type_name(*self),
    {
        match self {
            DataType::Event => "event".to_owned(),
            DataType::Section => "section".to_owned(),
            DataType::Thread => "thread".to_owned(),
            DataType::User => "user".to_owned(),
        }
    }
}

/// A message that can be emitted to the clients of a room. The data is JSON text,
/// and should match the indicated `data_type`.
#[derive(Debug, PartialEq, Eq)]
pub struct Message {
    pub room: Room,
    pub action: Action,
    pub data_type: DataType,
    pub data: String,
}

/// What is to be sent, and to which connections: each member of the room once, in no
/// particular order.
#[derive(Debug, PartialEq, Eq)]
pub struct Delivery {
    pub message: String,
    pub clients: Vec<u64>,
}

/// The text of a message: an object with the room's name, the action, the data type
/// and the data.
pub open spec fn envelope(room: Room, action: Action, data_type: DataType, data: Seq<char>) -> Seq<
    char,
> {
    "{\"room\":\""@ + room_name(room) + "\",\"action\":\""@ + action_name(action)
        + "\",\"data_type\":\""@ + data_type_name(data_type) + "\",\"data\":"@ + data + "}"@
}

/// Whether `sent` is what publishing a message does with the given rooms: nothing is
/// sent where the room has no entry; else the envelope goes to each member once.
pub open spec fn is_delivery(
    sent: Option<Delivery>,
    rooms: Map<Room, Set<u64>>,
    room: Room,
    action: Action,
    data_type: DataType,
    data: Seq<char>,
) -> bool {
    match sent {
        None => !rooms.contains_key(room),
        Some(delivery) => {
            &&& rooms.contains_key(room)
            &&& delivery.message@ == envelope(room, action, data_type, data)
            &&& delivery.clients@.to_set() == rooms[room]
            &&& delivery.clients@.no_duplicates()
        },
    }
}

impl Message {
    /// The text of the message.
    pub fn to_string(&self) -> (text: String)
        ensures
            text@ == envelope(self.room, self.action, self.data_type, self.data@),
    {
        let mut text = "{\"room\":\"".to_owned();
        text.append(self.room.to_string().as_str());
        text.append("\",\"action\":\"");
        text.append(self.action.to_string().as_str());
        text.append("\",\"data_type\":\"");
        text.append(self.data_type.to_string().as_str());
        text.append("\",\"data\":");
        text.append(self.data.as_str());
        text.append("}");
        text
    }

    /// Publishes the message: gives its text and the connections to send it to. A room
    /// without an entry is no error: there is nothing to send then. Whether a send
    /// reaches a connection is not the publisher's concern.
    pub fn send(&self, rooms: &Rooms) -> (sent: Option<Delivery>)
        ensures
            is_delivery(sent, rooms@, self.room, self.action, self.data_type, self.data@),
    {
        match rooms.members(self.room) {
            Some(clients) => Some(Delivery { message: self.to_string(), clients }),
            None => None,
        }
    }
}

/// Whether `c` is white space between the parts of a JSON text.
pub open spec fn is_space(c: char) -> bool {
    c == ' ' || c == '\t' || c == '\n' || c == '\r'
}

/// Whether `s` holds white space only.
pub open spec fn is_blank(s: Seq<char>) -> bool {
    forall|i: int| 0 <= i < s.len() ==> is_space(#[trigger] s[i])
}

/// Whether `s` has the outline of a JSON object: it opens and closes with a brace.
pub open spec fn is_object_text(s: Seq<char>) -> bool {
    s.len() >= 2 && s[0] == '{' && s.last() == '}'
}

/// The JSON object that holds an id and nothing else.
pub open spec fn id_json(id: i32) -> Seq<char> {
    "{\"id\":"@ + decimal(id as int) + "}"@
}

/// The JSON object `data` with an `id` field put in front of its fields, or `None`
/// where `data` has not the outline of an object.
pub open spec fn update_json(id: i32, data: Seq<char>) -> Option<Seq<char>> {
    if !is_object_text(data) {
        None
    } else {
        let fields = data.subrange(1, data.len() - 1);
        if is_blank(fields) {
            Some(id_json(id))
        } else {
            Some("{\"id\":"@ + decimal(id as int) + ","@ + fields + "}"@)
        }
    }
}

/// The JSON object that tells of a change of a section's lock: the section's id and
/// the lock's holder, and for a lock that is held the time since when.
pub open spec fn lock_json(id: i32, lock: LockSection) -> Seq<char> {
    match lock.lock_held_by_user_id {
        None => "{\"id\":"@ + decimal(id as int) + ",\"lock_held_by_user_id\":null}"@,
        Some(user) => "{\"id\":"@ + decimal(id as int) + ",\"lock_held_by_user_id\":"@ + decimal(
            user as int,
        ) + ",\"lock_assigned_at_utc\":"@ + decimal(lock.lock_assigned_at_utc as int) + "}"@,
    }
}

/// Adds an `id` field to the fields that an update changed.
#[derive(Debug, PartialEq, Eq)]
pub struct Update {
    pub id: i32,
    /// The changed fields, as the text of a JSON object.
    pub data: String,
}

impl Update {
    pub fn new(id: i32, data: String) -> (update: Self)
        ensures
            update.id == id,
            update.data@ == data@,
    {
        Self { id, data }
    }

    /// The text of the update: the changed fields behind the id, or `None` where the
    /// changed fields are not given as an object.
    pub fn to_json(&self) -> (text: Option<String>)
        ensures
            text is Some <==> is_object_text(self.data@),
            text matches Some(json) ==> update_json(self.id, self.data@) == Some(json@),
    {
        let data = self.data.as_str();
        let len: usize = data.unicode_len();
        if len < 2 || data.get_char(0) != '{' || data.get_char(len - 1) != '}' {
            return None;
        }
        let fields = data.substring_char(1, len - 1);
        let mut blank: bool = true;
        for c in iter: fields.chars()
            invariant
                iter.seq() == fields@,
                blank == is_blank(fields@.subrange(0, iter.index() as int)),
        {
            let ghost done = fields@.subrange(0, iter.index() as int);
            let ghost more = fields@.subrange(0, iter.index() + 1);
            proof {
                assert(more.last() == c);
                assert forall|k: int| 0 <= k < done.len() implies done[k] == more[k] by {}
                if is_blank(more) {
                    assert forall|k: int| 0 <= k < done.len() implies is_space(#[trigger] done[k]) by {
                        assert(is_space(more[k]));
                    }
                }
                if is_blank(done) && is_space(c) {
                    assert forall|k: int| 0 <= k < more.len() implies is_space(#[trigger] more[k]) by {
                        if k < done.len() {
                            assert(is_space(done[k]));
                        }
                    }
                }
                if !is_space(c) {
                    assert(!is_space(more[more.len() - 1]));
                }
            }
            if !(c == ' ' || c == '\t' || c == '\n' || c == '\r') {
                blank = false;
            }
        }
        proof {
            assert(fields@.subrange(0, fields@.len() as int) =~= fields@);
        }
        let mut text = "{\"id\":".to_owned();
        text.append(format_i64(self.id as i64).as_str());
        if !blank {
            text.append(",");
            text.append(fields);
        }
        text.append("}");
        Some(text)
    }
}

/// The text that tells the clients of the deletion of the entity with the given id.
pub fn deleted_json(id: i32) -> (text: String)
    ensures
        text@ == id_json(id),
{
    let mut text = "{\"id\":".to_owned();
    text.append(format_i64(id as i64).as_str());
    text.append("}");
    text
}

/// The text that tells the clients of a change of the lock of the section with the
/// given id.
pub fn locked_json(id: i32, lock: &LockSection) -> (text: String)
    ensures
        text@ == lock_json(id, *lock),
{
    let mut text = "{\"id\":".to_owned();
    text.append(format_i64(id as i64).as_str());
    match lock.lock_held_by_user_id {
        None => {
            text.append(",\"lock_held_by_user_id\":null}");
        },
        Some(user) => {
            text.append(",\"lock_held_by_user_id\":");
            text.append(format_i64(user as i64).as_str());
            text.append(",\"lock_assigned_at_utc\":");
            text.append(format_i64(lock.lock_assigned_at_utc).as_str());
            text.append("}");
        },
    }
    text
}

} // verus!
