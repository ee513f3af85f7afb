//! Requests on preset events.
use crate::controller::preset_event::PresetEvent;
use crate::controller::StoreError;
use crate::endpoint::helpers::{json_result, mapped, RocketResult};
use vstd::prelude::*;

verus! {

/// Every preset event, as the store lists them.
pub fn all(rows: Result<Vec<PresetEvent>, StoreError>) -> (response: RocketResult<Vec<PresetEvent>>)
    ensures
        rows matches Ok(list) ==> response matches Ok(body) && body == list,
        rows matches Err(err) ==> response matches Err(status) && status == mapped(err),
{
    json_result(rows)
}

/// One preset event, as the cache or the store gave it.
pub fn get(row: Result<PresetEvent, StoreError>) -> (response: RocketResult<PresetEvent>)
    ensures
        row matches Ok(found) ==> response matches Ok(body) && body == found,
        row matches Err(err) ==> response matches Err(status) && status == mapped(err),
{
    json_result(row)
}

} // verus!
