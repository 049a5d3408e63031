//! What a trigger firing is: the three independent readings of its event mask.

use crate::tuple::{fields_of, Attribute, Field, TryFromDatumError};
use vstd::prelude::*;

verus! {

/// One firing of a trigger, as the host describes it: the event mask and the
/// row images that the operation has.
#[derive(Debug)]
pub struct TriggerData {
    pub event: u32,
    /// The row as it was before the operation.
    pub old_row: Option<Vec<Attribute>>,
    /// The row as the operation is about to leave it.
    pub new_row: Option<Vec<Attribute>>,
}

/// What the host says a call is made for.
#[derive(Debug)]
pub enum CallContext {
    /// The trigger manager made the call.
    Trigger(TriggerData),
    /// Something else did.
    Other,
}

/// The one argument of every extension function.
#[derive(Debug)]
pub struct FunctionCallInfo {
    pub context: Option<CallContext>,
}

/// Which row image of a firing is asked for.
#[derive(Debug, Clone, Copy, PartialEq, Eq, Structural)]
pub enum TriggerTuple {
    /// The row the operation is about to leave: there on insert and update.
    Current,
    /// The row as it was: there on update and delete.
    Old,
}

/// Why a trigger handler gives up. Each ends the call: none is answered with a
/// made-up row.
#[derive(Debug, Clone, Copy, PartialEq, Eq)]
pub enum TriggerError {
    /// The call did not come from the trigger manager.
    NotCalledAsTrigger,
    /// The event is not one the handler is written for.
    UnsupportedEvent,
    /// The operation has no such row image.
    NoSuchImage,
    /// A field could not be read or written.
    Field(TryFromDatumError),
}

/// The row image `which` of a firing, where the operation has one and the host
/// handed it over. Only row-level firings have images.
pub open spec fn image(data: TriggerData, which: TriggerTuple) -> Option<Seq<Field>> {
    let operation = operation_bits(data.event);
    let row = match which {
        TriggerTuple::Current => if operation == TRIGGER_EVENT_INSERT || operation
            == TRIGGER_EVENT_UPDATE {
            data.new_row
        } else {
            None
        },
        TriggerTuple::Old => if operation == TRIGGER_EVENT_UPDATE || operation
            == TRIGGER_EVENT_DELETE {
            data.old_row
        } else {
            None
        },
    };
    match row {
        Some(attributes) if row_bit(data.event) => Some(fields_of(attributes@)),
        _ => None,
    }
}

/// The firing that a call was made for, if the trigger manager made it.
pub open spec fn firing(fcinfo: FunctionCallInfo) -> Option<TriggerData> {
    match fcinfo.context {
        Some(CallContext::Trigger(data)) => Some(data),
        _ => None,
    }
}

/// Whether the trigger manager made this call.
pub fn called_as_trigger(fcinfo: &FunctionCallInfo) -> (yes: bool)
    ensures
        yes == firing(*fcinfo) is Some,
{
    match &fcinfo.context {
        Some(CallContext::Trigger(_)) => true,
        _ => false,
    }
}

/// The firing that a call was made for. A call that the trigger manager did not
/// make has none, and is refused.
pub fn trigger_data(fcinfo: &FunctionCallInfo) -> (data: Result<&TriggerData, TriggerError>)
    ensures
        match firing(*fcinfo) {
            Some(firing) => data matches Ok(found) && *found == firing,
            None => data matches Err(error) && error == TriggerError::NotCalledAsTrigger,
        },
{
    match &fcinfo.context {
        Some(CallContext::Trigger(data)) => Ok(data),
        _ => Err(TriggerError::NotCalledAsTrigger),
    }
}

/// An insert has no old row image, a delete no current one, and a firing for a
/// whole statement neither, whatever the host handed over.
pub proof fn lemma_absent_images(data: TriggerData)
    ensures
        operation_bits(data.event) == TRIGGER_EVENT_INSERT ==> image(data, TriggerTuple::Old)
            is None,
        operation_bits(data.event) == TRIGGER_EVENT_DELETE ==> image(
            data,
            TriggerTuple::Current,
        ) is None,
        operation_bits(data.event) == TRIGGER_EVENT_TRUNCATE ==> image(
            data,
            TriggerTuple::Current,
        ) is None && image(data, TriggerTuple::Old) is None,
        !row_bit(data.event) ==> image(data, TriggerTuple::Current) is None && image(
            data,
            TriggerTuple::Old,
        ) is None,
{
}

pub const TRIGGER_EVENT_INSERT: u32 = 0x0;

pub const TRIGGER_EVENT_DELETE: u32 = 0x1;

pub const TRIGGER_EVENT_UPDATE: u32 = 0x2;

pub const TRIGGER_EVENT_TRUNCATE: u32 = 0x3;

pub const TRIGGER_EVENT_OPMASK: u32 = 0x3;

pub const TRIGGER_EVENT_ROW: u32 = 0x4;

pub const TRIGGER_EVENT_BEFORE: u32 = 0x8;

pub const TRIGGER_EVENT_AFTER: u32 = 0x0;

pub const TRIGGER_EVENT_INSTEAD: u32 = 0x10;

pub const TRIGGER_EVENT_TIMINGMASK: u32 = 0x18;

/// The operation bits of an event.
pub open spec fn operation_bits(event: u32) -> u32 {
    event & TRIGGER_EVENT_OPMASK
}

/// The timing bits of an event.
pub open spec fn timing_bits(event: u32) -> u32 {
    event & TRIGGER_EVENT_TIMINGMASK
}

/// Whether the row bit of an event is set.
pub open spec fn row_bit(event: u32) -> bool {
    event & TRIGGER_EVENT_ROW != 0
}

pub fn trigger_fired_by_insert(event: u32) -> (fired: bool)
    ensures
        fired == (operation_bits(event) == TRIGGER_EVENT_INSERT),
{
    event & TRIGGER_EVENT_OPMASK == TRIGGER_EVENT_INSERT
}

pub fn trigger_fired_by_delete(event: u32) -> (fired: bool)
    ensures
        fired == (operation_bits(event) == TRIGGER_EVENT_DELETE),
{
    event & TRIGGER_EVENT_OPMASK == TRIGGER_EVENT_DELETE
}

pub fn trigger_fired_by_update(event: u32) -> (fired: bool)
    ensures
        fired == (operation_bits(event) == TRIGGER_EVENT_UPDATE),
{
    event & TRIGGER_EVENT_OPMASK == TRIGGER_EVENT_UPDATE
}

pub fn trigger_fired_by_truncate(event: u32) -> (fired: bool)
    ensures
        fired == (operation_bits(event) == TRIGGER_EVENT_TRUNCATE),
{
    event & TRIGGER_EVENT_OPMASK == TRIGGER_EVENT_TRUNCATE
}

pub fn trigger_fired_for_row(event: u32) -> (fired: bool)
    ensures
        fired == row_bit(event),
{
    event & TRIGGER_EVENT_ROW != 0
}

pub fn trigger_fired_for_statement(event: u32) -> (fired: bool)
    ensures
        fired == !row_bit(event),
{
    !trigger_fired_for_row(event)
}

pub fn trigger_fired_before(event: u32) -> (fired: bool)
    ensures
        fired == (timing_bits(event) == TRIGGER_EVENT_BEFORE),
{
    event & TRIGGER_EVENT_TIMINGMASK == TRIGGER_EVENT_BEFORE
}

pub fn trigger_fired_after(event: u32) -> (fired: bool)
    ensures
        fired == (timing_bits(event) == TRIGGER_EVENT_AFTER),
{
    event & TRIGGER_EVENT_TIMINGMASK == TRIGGER_EVENT_AFTER
}

pub fn trigger_fired_instead(event: u32) -> (fired: bool)
    ensures
        fired == (timing_bits(event) == TRIGGER_EVENT_INSTEAD),
{
    event & TRIGGER_EVENT_TIMINGMASK == TRIGGER_EVENT_INSTEAD
}

/// Every event is fired by exactly one of the four operations.
pub proof fn lemma_one_operation(event: u32)
    ensures
        operation_bits(event) == TRIGGER_EVENT_INSERT || operation_bits(event)
            == TRIGGER_EVENT_DELETE || operation_bits(event) == TRIGGER_EVENT_UPDATE
            || operation_bits(event) == TRIGGER_EVENT_TRUNCATE,
        TRIGGER_EVENT_INSERT != TRIGGER_EVENT_DELETE,
        TRIGGER_EVENT_INSERT != TRIGGER_EVENT_UPDATE,
        TRIGGER_EVENT_INSERT != TRIGGER_EVENT_TRUNCATE,
        TRIGGER_EVENT_DELETE != TRIGGER_EVENT_UPDATE,
        TRIGGER_EVENT_DELETE != TRIGGER_EVENT_TRUNCATE,
        TRIGGER_EVENT_UPDATE != TRIGGER_EVENT_TRUNCATE,
{
    assert(event & 0x3 == 0 || event & 0x3 == 1 || event & 0x3 == 2 || event & 0x3 == 3)
        by (bit_vector);
}

/// The three readings are independent: changing the bits of one leaves the
/// other two as they were.
pub proof fn lemma_readings_independent(event: u32, other: u32)
    ensures
        operation_bits(event ^ (other & TRIGGER_EVENT_TIMINGMASK)) == operation_bits(event),
        row_bit(event ^ (other & TRIGGER_EVENT_TIMINGMASK)) == row_bit(event),
        operation_bits(event ^ (other & TRIGGER_EVENT_ROW)) == operation_bits(event),
        timing_bits(event ^ (other & TRIGGER_EVENT_ROW)) == timing_bits(event),
        row_bit(event ^ (other & TRIGGER_EVENT_OPMASK)) == row_bit(event),
        timing_bits(event ^ (other & TRIGGER_EVENT_OPMASK)) == timing_bits(event),
{
    assert((event ^ (other & 0x18)) & 0x3 == event & 0x3) by (bit_vector);
    assert((event ^ (other & 0x18)) & 0x4 == event & 0x4) by (bit_vector);
    assert((event ^ (other & 0x4)) & 0x3 == event & 0x3) by (bit_vector);
    assert((event ^ (other & 0x4)) & 0x18 == event & 0x18) by (bit_vector);
    assert((event ^ (other & 0x3)) & 0x4 == event & 0x4) by (bit_vector);
    assert((event ^ (other & 0x3)) & 0x18 == event & 0x18) by (bit_vector);
}

} // verus!
