//! What every mutation does once the entity store has taken it: the cache is brought up
//! to date, and the change is published to the room that the entity belongs to.
use crate::cache::{inserted, without, Cache};
use crate::controller::{Entity, EntityView};
use crate::websocket::structs::{
    deleted_json, id_json, is_delivery, update_json, Action, DataType, Delivery, Message, Room,
    Update,
};
use crate::websocket::Rooms;
use vstd::prelude::*;

verus! {

/// The room that hears of changes to an entity, and the data type under which it hears
/// of them: a section belongs to the room of its thread, a user to the room of users.
/// Changes to other entities are not published.
pub open spec fn owning_room(entity: EntityView) -> Option<(Room, DataType)> {
    match entity {
        EntityView::Section(section) => Some((Room::Thread(section.in_thread_id), DataType::Section)),
        EntityView::User(_) => Some((Room::User, DataType::User)),
        _ => None,
    }
}

/// Whether `sent` is what publishing `data` to `target` does: without a target nothing
/// is sent; else the target room's members get the envelope.
pub open spec fn is_publication(
    sent: Option<Delivery>,
    rooms: Map<Room, Set<u64>>,
    target: Option<(Room, DataType)>,
    action: Action,
    data: Seq<char>,
) -> bool {
    match target {
        Some((room, data_type)) => is_delivery(sent, rooms, room, action, data_type, data),
        None => sent is None,
    }
}

/// Whether `sent` is what publishing an update does: as `is_publication` with the update's
/// text, and nothing where the changed fields were not given as an object.
pub open spec fn is_update_publication(
    sent: Option<Delivery>,
    rooms: Map<Room, Set<u64>>,
    target: Option<(Room, DataType)>,
    id: i32,
    changes: Seq<char>,
) -> bool {
    match update_json(id, changes) {
        Some(json) => is_publication(sent, rooms, target, Action::Update, json),
        None => sent is None,
    }
}

/// The room that hears of changes to `entity`, if any.
pub fn owning_room_of(entity: &Entity) -> (target: Option<(Room, DataType)>)
    ensures
        target == owning_room(entity@),
{
    match entity {
        Entity::Section(section) => Some((Room::Thread(section.in_thread_id), DataType::Section)),
        Entity::User(_) => Some((Room::User, DataType::User)),
        _ => None,
    }
}

/// Publishes `data` to `target`, if there is one.
pub fn publish(rooms: &Rooms, target: Option<(Room, DataType)>, action: Action, data: String) -> (sent:
    Option<Delivery>)
    ensures
        is_publication(sent, rooms@, target, action, data@),
{
    match target {
        Some((room, data_type)) => Message { room, action, data_type, data }.send(rooms),
        None => None,
    }
}

/// An entity was created in the store: it is filed in the cache, and `data`, the text of
/// the whole entity, is published to its room.
pub fn create(cache: &mut Cache, rooms: &Rooms, created: Entity, data: String) -> (sent: Option<
    Delivery,
>)
    ensures
        final(cache)@ == inserted(
            old(cache)@,
            created@.id(),
            created@,
            old(cache).capacity() as int,
        ),
        final(cache).capacity() == old(cache).capacity(),
        is_publication(sent, rooms@, owning_room(created@), Action::Create, data@),
{
    let target = owning_room_of(&created);
    cache.put(created.id(), created);
    publish(rooms, target, Action::Create, data)
}

/// An entity was updated in the store: the whole entity as it is now, `updated`, is
/// filed in the cache, and `changes`, the text of the fields that changed, is published
/// to its room behind the entity's id.
pub fn update(cache: &mut Cache, rooms: &Rooms, updated: Entity, changes: String) -> (sent: Option<
    Delivery,
>)
    ensures
        final(cache)@ == inserted(
            old(cache)@,
            updated@.id(),
            updated@,
            old(cache).capacity() as int,
        ),
        final(cache).capacity() == old(cache).capacity(),
        is_update_publication(sent, rooms@, owning_room(updated@), updated@.id(), changes@),
{
    let target = owning_room_of(&updated);
    let id: i32 = updated.id();
    cache.put(id, updated);
    match Update::new(id, changes).to_json() {
        Some(json) => publish(rooms, target, Action::Update, json),
        None => None,
    }
}

/// The entity with the given id was deleted from the store: it leaves the cache, and its
/// id is published to the room it belonged to.
pub fn delete(cache: &mut Cache, rooms: &Rooms, id: i32, target: Option<(Room, DataType)>) -> (sent:
    Option<Delivery>)
    ensures
        final(cache)@ == without(old(cache)@, id),
        final(cache).capacity() == old(cache).capacity(),
        is_publication(sent, rooms@, target, Action::Delete, id_json(id)),
{
    cache.invalidate(id);
    publish(rooms, target, Action::Delete, deleted_json(id))
}

} // verus!
