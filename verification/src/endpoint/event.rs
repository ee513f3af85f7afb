//! Requests on events.
use crate::controller::event::{clone_columns, columns_view, Column, ColumnView, Event, UpdateEvent};
use crate::controller::markdown::is_utc_column;
use crate::controller::thread::Thread;
use crate::controller::user::{may_modify, viewed_thread, User};
use crate::controller::StoreError;
use crate::endpoint::helpers::{json_result, mapped, RocketResult, Status};
use vstd::prelude::*;

verus! {

/// Every event, as the store lists them.
pub fn all(rows: Result<Vec<Event>, StoreError>) -> (response: RocketResult<Vec<Event>>)
    ensures
        rows matches Ok(list) ==> response matches Ok(body) && body == list,
        rows matches Err(err) ==> response matches Err(status) && status == mapped(err),
{
    json_result(rows)
}

/// One event, as the cache or the store gave it.
pub fn get(row: Result<Event, StoreError>) -> (response: RocketResult<Event>)
    ensures
        row matches Ok(found) ==> response matches Ok(body) && body == found,
        row matches Err(err) ==> response matches Err(status) && status == mapped(err),
{
    json_result(row)
}

/// Whether a row holds what the columns of a thread hold: as many cells as the thread
/// has column headers, a number in the UTC column, and a text in every other column.
pub open spec fn columns_fit(cols: Seq<ColumnView>, headers: nat, utc_col_index: Option<i16>) -> bool {
    &&& cols.len() == headers
    &&& forall|i: int|
        0 <= i < cols.len() ==> (if is_utc_column(i, utc_col_index) {
            #[trigger] cols[i] is Number
        } else {
            cols[i] is Text
        })
}

/// Whether a row holds what the columns of a thread hold.
pub fn columns_valid(cols: &Vec<Column>, thread: &Thread) -> (valid: bool)
    ensures
        valid == columns_fit(
            columns_view(cols@),
            thread.event_column_headers@.len(),
            thread.space__utc_col_index,
        ),
{
    if thread.event_column_headers.len() != cols.len() {
        return false;
    }
    let ghost view = columns_view(cols@);
    let utc_col_index = thread.space__utc_col_index;
    let mut i: usize = 0;
    while i < cols.len()
        invariant
            i <= cols.len(),
            view == columns_view(cols@),
            utc_col_index == thread.space__utc_col_index,
            forall|k: int|
                0 <= k < i ==> (if is_utc_column(k, utc_col_index) {
                    #[trigger] view[k] is Number
                } else {
                    view[k] is Text
                }),
        decreases cols.len() - i,
    {
        let is_utc: bool = match utc_col_index {
            Some(n) => n >= 0 && n as usize == i,
            None => false,
        };
        let fits: bool = match &cols[i] {
            Column::Number(_) => is_utc,
            Column::Text(_) => !is_utc,
            Column::Other => false,
        };
        proof {
            assert(view[i as int] == cols@[i as int]@);
        }
        if !fits {
            return false;
        }
        i += 1;
    }
    true
}

/// What a request to add an event is answered with, in this order: unauthorized where
/// the user may not modify the thread; not found where the thread is not there;
/// unprocessable where the row does not hold what the columns of the thread hold.
pub open spec fn post_spec(user: User, thread: Option<&Thread>, cols: Seq<ColumnView>) -> RocketResult<
    (),
> {
    if !may_modify(user@, viewed_thread(thread)) {
        Err(Status::Unauthorized)
    } else {
        match thread {
            None => Err(Status::NotFound),
            Some(thread) => if columns_fit(
                cols,
                thread.event_column_headers@.len(),
                thread.space__utc_col_index,
            ) {
                Ok(())
            } else {
                Err(Status::UnprocessableEntity)
            },
        }
    }
}

/// Whether `user` may add an event with the given row to `thread`, the thread that the
/// new event names.
pub fn post(user: &User, thread: Option<&Thread>, cols: &Vec<Column>) -> (response: RocketResult<()>)
    ensures
        response == post_spec(*user, thread, columns_view(cols@)),
{
    if !user.can_modify_thread(thread) {
        return Err(Status::Unauthorized);
    }
    match thread {
        None => Err(Status::NotFound),
        Some(thread) => {
            // Ensure the provided columns are of the expected types and length.
            if columns_valid(cols, thread) {
                Ok(())
            } else {
                Err(Status::UnprocessableEntity)
            }
        },
    }
}

/// An update of an event is one of two: an update of its fields, or new values for
/// single cells of its row, each with the index of its column.
#[derive(Debug, PartialEq, Eq)]
pub enum UpdateEventDiscriminant {
    FullEvent(UpdateEvent),
    PartialEvent(Vec<(usize, Column)>),
}

/// The plain values of a list of new values for cells.
pub open spec fn cells_view(cells: Seq<(usize, Column)>) -> Seq<(int, ColumnView)> {
    Seq::new(cells.len(), |i: int| (cells[i].0 as int, cells[i].1@))
}

/// Whether every new value is for a cell that the row has.
pub open spec fn cells_in_range(cells: Seq<(int, ColumnView)>, len: int) -> bool {
    forall|i: int| 0 <= i < cells.len() ==> 0 <= (#[trigger] cells[i]).0 < len
}

/// A row after each of the new values was put into its cell, one after the other.
pub open spec fn with_cells(cols: Seq<ColumnView>, cells: Seq<(int, ColumnView)>) -> Seq<ColumnView>
    decreases cells.len(),
{
    if cells.len() == 0 {
        cols
    } else {
        with_cells(cols, cells.drop_last()).update(cells.last().0, cells.last().1)
    }
}

/// The row of an event after new values were put into single cells, or `None` where a
/// value is for a cell that the row does not have.
pub fn merge_cells(event: &Event, cells: &Vec<(usize, Column)>) -> (merged: Option<Vec<Column>>)
    ensures
        merged is Some <==> cells_in_range(cells_view(cells@), event.cols@.len() as int),
        merged matches Some(cols) ==> columns_view(cols@) == with_cells(
            columns_view(event.cols@),
            cells_view(cells@),
        ),
{
    let mut cols = clone_columns(&event.cols);
    let ghost all = cells_view(cells@);
    let ghost len = event.cols@.len() as int;
    let mut i: usize = 0;
    proof {
        assert(all.subrange(0, 0) =~= Seq::<(int, ColumnView)>::empty());
        assert(columns_view(cols@).len() == cols@.len());
        assert(columns_view(event.cols@).len() == event.cols@.len());
    }
    while i < cells.len()
        invariant
            i <= cells.len(),
            all == cells_view(cells@),
            len == event.cols@.len(),
            cols@.len() == len,
            cells_in_range(all.subrange(0, i as int), len),
            columns_view(cols@) == with_cells(columns_view(event.cols@), all.subrange(0, i as int)),
        decreases cells.len() - i,
    {
        let key: usize = cells[i].0;
        proof {
            assert(all[i as int] == (cells@[i as int].0 as int, cells@[i as int].1@));
        }
        if key >= cols.len() {
            return None;
        }
        let ghost before = columns_view(cols@);
        cols.set(key, cells[i].1.clone());
        proof {
            let done = all.subrange(0, i as int);
            let more = all.subrange(0, i + 1);
            assert(more.drop_last() =~= done);
            assert(more.last() == all[i as int]);
            assert(columns_view(cols@) =~= before.update(key as int, cells@[i as int].1@));
            assert forall|k: int| 0 <= k < more.len() implies 0 <= (#[trigger] more[k]).0 < len by {
                if k < i {
                    assert(done[k] == more[k]);
                }
            }
        }
        i += 1;
    }
    proof {
        assert(all.subrange(0, i as int) =~= all);
    }
    Some(cols)
}

/// Whether `user` may update an event. `event` is the event, or `None` where there is
/// none with the id of the request; `thread` is its thread. A missing event is not
/// found; an event of a thread that the user may not modify is unauthorized.
pub fn patch_full_event(user: &User, event: Option<&Event>, thread: Option<&Thread>) -> (response:
    RocketResult<()>)
    ensures
        response is Ok <==> event is Some && may_modify(user@, viewed_thread(thread)),
        response matches Err(status) ==> status == (if event is None {
            Status::NotFound
        } else {
            Status::Unauthorized
        }),
{
    if event.is_none() {
        Err(Status::NotFound)
    } else if user.can_modify_thread(thread) {
        Ok(())
    } else {
        Err(Status::Unauthorized)
    }
}

/// Why an update of an event is refused, in this order: not found where there is no such
/// event; unprocessable where a new value is for a cell that the row does not have;
/// unauthorized where the user may not modify the thread. `None` where it is granted.
pub open spec fn patch_refusal(
    user: User,
    event: Option<&Event>,
    thread: Option<&Thread>,
    data: UpdateEventDiscriminant,
) -> Option<Status> {
    match event {
        None => Some(Status::NotFound),
        Some(found) => if data matches UpdateEventDiscriminant::PartialEvent(cells)
            && !cells_in_range(cells_view(cells@), found.cols@.len() as int) {
            Some(Status::UnprocessableEntity)
        } else if !may_modify(user@, viewed_thread(thread)) {
            Some(Status::Unauthorized)
        } else {
            None
        },
    }
}

/// Whether `fields` are what an update of `event` stores: the fields as they were sent,
/// or nothing but the row with the new values in their cells.
pub open spec fn is_patch_of(fields: UpdateEvent, event: Event, data: UpdateEventDiscriminant) -> bool {
    match data {
        UpdateEventDiscriminant::FullEvent(sent) => fields == sent,
        UpdateEventDiscriminant::PartialEvent(cells) => {
            &&& fields.posted is None
            &&& fields.cols matches Some(cols)
            &&& columns_view(cols@) == with_cells(columns_view(event.cols@), cells_view(cells@))
        },
    }
}

/// Decides an update of an event and gives the fields to store.
pub fn patch(
    user: &User,
    event: Option<&Event>,
    thread: Option<&Thread>,
    data: UpdateEventDiscriminant,
) -> (response: RocketResult<UpdateEvent>)
    ensures
        response is Ok <==> patch_refusal(*user, event, thread, data) is None,
        response matches Err(status) ==> patch_refusal(*user, event, thread, data) == Some(status),
        response matches Ok(fields) ==> event matches Some(found) && is_patch_of(
            fields,
            *found,
            data,
        ),
{
    match data {
        UpdateEventDiscriminant::FullEvent(sent) => match patch_full_event(user, event, thread) {
            Ok(_) => Ok(sent),
            Err(status) => Err(status),
        },
        UpdateEventDiscriminant::PartialEvent(cells) => match event {
            None => Err(Status::NotFound),
            Some(found) => match merge_cells(found, &cells) {
                None => Err(Status::UnprocessableEntity),
                Some(cols) => match patch_full_event(user, event, thread) {
                    Ok(_) => {
                        let mut fields = UpdateEvent::default();
                        fields.cols = Some(cols);
                        Ok(fields)
                    },
                    Err(status) => Err(status),
                },
            },
        },
    }
}

/// Whether `user` may delete an event. `event` is the event, or `None` where there is
/// none with the id of the request; `thread` is its thread.
pub fn delete(user: &User, event: Option<&Event>, thread: Option<&Thread>) -> (response:
    RocketResult<()>)
    ensures
        response is Ok <==> event is Some && may_modify(user@, viewed_thread(thread)),
        response matches Err(status) ==> status == Status::Unauthorized,
{
    if event.is_some() && user.can_modify_thread(thread) {
        Ok(())
    } else {
        Err(Status::Unauthorized)
    }
}

} // verus!
