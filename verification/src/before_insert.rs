//! A trigger that runs before each row is inserted and gives the row a new title.

use crate::datum::{JsonB, Text};
use crate::trigger::{called_as_trigger, firing, image, operation_bits, row_bit, timing_bits};
use crate::trigger::{trigger_data, trigger_fired_before, trigger_fired_by_insert};
use crate::trigger::{trigger_fired_for_row, FunctionCallInfo, TriggerError, TriggerTuple};
use crate::trigger::{TRIGGER_EVENT_BEFORE, TRIGGER_EVENT_INSERT};
use crate::tuple::{lemma_write_then_read, read_at, read_named, write_named};
use crate::tuple::{Field, OwnedHeapTuple, PgHeapTuple, TryFromDatumError};
use vstd::prelude::*;

verus! {

/// What the handler read from the incoming row, and the row it hands back.
pub struct Retitled {
    pub id: Option<i64>,
    pub title: Option<Text>,
    pub description: Option<Text>,
    pub payload: Option<JsonB>,
    /// The incoming row with its title replaced.
    pub row: OwnedHeapTuple,
}

/// A `Retitled` with its row as a sequence of fields.
pub struct RetitledView {
    pub id: Option<i64>,
    pub title: Option<Text>,
    pub description: Option<Text>,
    pub payload: Option<JsonB>,
    pub row: Seq<Field>,
}

impl View for Retitled {
    type V = RetitledView;

    open spec fn view(&self) -> RetitledView {
        RetitledView {
            id: self.id,
            title: self.title,
            description: self.description,
            payload: self.payload,
            row: self.row@,
        }
    }
}

/// The name of the column that the handler rewrites.
pub open spec fn title_column() -> Seq<char> {
    "title"@
}

/// Whether an event is the one the handler is written for: before, insert, row.
pub open spec fn is_before_insert_row(event: u32) -> bool {
    timing_bits(event) == TRIGGER_EVENT_BEFORE && operation_bits(event) == TRIGGER_EVENT_INSERT
        && row_bit(event)
}

/// What the handler makes of an incoming row: the four columns read in order,
/// the first that cannot be read ending it, then the title replaced.
pub open spec fn retitled_row(fields: Seq<Field>, new_title: Text) -> Result<
    RetitledView,
    TriggerError,
> {
    match read_at::<i64>(fields, 1) {
        Err(error) => Err(TriggerError::Field(error)),
        Ok(id) => match read_at::<Text>(fields, 2) {
            Err(error) => Err(TriggerError::Field(error)),
            Ok(title) => match read_at::<Text>(fields, 3) {
                Err(error) => Err(TriggerError::Field(error)),
                Ok(description) => match read_at::<JsonB>(fields, 4) {
                    Err(error) => Err(TriggerError::Field(error)),
                    Ok(payload) => match write_named::<Text>(fields, title_column(), new_title) {
                        Err(error) => Err(TriggerError::Field(error)),
                        Ok(row) => Ok(RetitledView { id, title, description, payload, row }),
                    },
                },
            },
        },
    }
}

/// What the handler answers to a call: each validation in turn, then the row.
pub open spec fn handled(fcinfo: FunctionCallInfo, new_title: Text) -> Result<
    RetitledView,
    TriggerError,
> {
    match firing(fcinfo) {
        None => Err(TriggerError::NotCalledAsTrigger),
        Some(data) => if !is_before_insert_row(data.event) {
            Err(TriggerError::UnsupportedEvent)
        } else {
            match image(data, TriggerTuple::Current) {
                None => Err(TriggerError::NoSuchImage),
                Some(fields) => retitled_row(fields, new_title),
            }
        },
    }
}

/// Reads the four columns of an incoming row and replaces its title.
pub fn retitle(tuple: PgHeapTuple<'_>, new_title: Text) -> (outcome: Result<Retitled, TriggerError>)
    ensures
        match retitled_row(tuple@, new_title) {
            Ok(expected) => outcome matches Ok(retitled) && retitled@ == expected,
            Err(error) => outcome matches Err(found) && found == error,
        },
{
    let id = match tuple.get_by_index::<i64>(1) {
        Ok(value) => value,
        Err(error) => return Err(TriggerError::Field(error)),
    };
    let title = match tuple.get_by_index::<Text>(2) {
        Ok(value) => value,
        Err(error) => return Err(TriggerError::Field(error)),
    };
    let description = match tuple.get_by_index::<Text>(3) {
        Ok(value) => value,
        Err(error) => return Err(TriggerError::Field(error)),
    };
    let payload = match tuple.get_by_index::<JsonB>(4) {
        Ok(value) => value,
        Err(error) => return Err(TriggerError::Field(error)),
    };
    let mut row = tuple.into_owned();
    match row.set_by_name("title", new_title) {
        Ok(()) => Ok(Retitled { id, title, description, payload, row }),
        Err(error) => Err(TriggerError::Field(error)),
    }
}

/// Handles one call. Only a call from the trigger manager, for a row about to
/// be inserted, is answered with a row: the incoming one with `new_title` as its
/// title. Every other call, and every row that cannot be read as expected, is
/// refused with the reason.
pub fn trigger_example(fcinfo: &FunctionCallInfo, new_title: Text) -> (outcome: Result<
    Retitled,
    TriggerError,
>)
    ensures
        match handled(*fcinfo, new_title) {
            Ok(expected) => outcome matches Ok(retitled) && retitled@ == expected,
            Err(error) => outcome matches Err(found) && found == error,
        },
{
    if !called_as_trigger(fcinfo) {
        return Err(TriggerError::NotCalledAsTrigger);
    }
    let data = match trigger_data(fcinfo) {
        Ok(data) => data,
        Err(error) => return Err(error),
    };
    if !(trigger_fired_before(data.event) && trigger_fired_by_insert(data.event)
        && trigger_fired_for_row(data.event)) {
        return Err(TriggerError::UnsupportedEvent);
    }
    match PgHeapTuple::from_trigger_data(data, TriggerTuple::Current) {
        Ok(tuple) => retitle(tuple, new_title),
        Err(error) => Err(error),
    }
}

/// In the row the handler hands back, the title reads as the new title, every
/// column stands where it stood, and every field but the title is as it came.
pub proof fn lemma_only_the_title_changes(fields: Seq<Field>, new_title: Text)
    requires
        retitled_row(fields, new_title) is Ok,
    ensures
        ({
            let row = retitled_row(fields, new_title)->Ok_0.row;
            &&& row.len() == fields.len()
            &&& read_named::<Text>(row, title_column()) == Ok::<Option<Text>, TryFromDatumError>(
                Some(new_title),
            )
            &&& forall|j: int|
                0 <= j < fields.len() && fields[j].name != title_column() ==> row[j] == fields[j]
        }),
{
    lemma_write_then_read::<Text>(fields, title_column(), new_title);
    crate::tuple::lemma_find_from(fields, title_column(), 0);
}

} // verus!
