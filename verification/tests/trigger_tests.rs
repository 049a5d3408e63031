use pgx_core::trigger::{called_as_trigger, trigger_data, trigger_fired_after};
use pgx_core::trigger::{trigger_fired_before, trigger_fired_by_delete, trigger_fired_by_insert};
use pgx_core::trigger::{trigger_fired_by_truncate, trigger_fired_by_update};
use pgx_core::trigger::{trigger_fired_for_row, trigger_fired_for_statement};
use pgx_core::trigger::{trigger_fired_instead, CallContext, FunctionCallInfo, TriggerData};
use pgx_core::trigger::{TriggerError, TriggerTuple};
use pgx_core::trigger::{TRIGGER_EVENT_AFTER, TRIGGER_EVENT_BEFORE, TRIGGER_EVENT_DELETE};
use pgx_core::trigger::{TRIGGER_EVENT_INSERT, TRIGGER_EVENT_INSTEAD, TRIGGER_EVENT_ROW};
use pgx_core::trigger::{TRIGGER_EVENT_TRUNCATE, TRIGGER_EVENT_UPDATE};
use pgx_core::tuple::{Attribute, PgHeapTuple};

fn column(name: &str, type_oid: u32, datum: usize) -> Attribute {
    Attribute { name: name.to_string(), type_oid, datum, is_null: false }
}

fn firing(event: u32, old: bool, new: bool) -> TriggerData {
    TriggerData {
        event,
        old_row: if old { Some(vec![column("id", 20, 1)]) } else { None },
        new_row: if new { Some(vec![column("id", 20, 2)]) } else { None },
    }
}

#[test]
fn event_constants() {
    assert_eq!(TRIGGER_EVENT_INSERT, 0);
    assert_eq!(TRIGGER_EVENT_DELETE, 1);
    assert_eq!(TRIGGER_EVENT_UPDATE, 2);
    assert_eq!(TRIGGER_EVENT_TRUNCATE, 3);
    assert_eq!(TRIGGER_EVENT_ROW, 4);
    assert_eq!(TRIGGER_EVENT_BEFORE, 8);
    assert_eq!(TRIGGER_EVENT_AFTER, 0);
    assert_eq!(TRIGGER_EVENT_INSTEAD, 16);
}

#[test]
fn before_insert_for_each_row() {
    let event = TRIGGER_EVENT_BEFORE | TRIGGER_EVENT_INSERT | TRIGGER_EVENT_ROW;
    assert_eq!(event, 12);
    assert!(trigger_fired_before(event));
    assert!(!trigger_fired_after(event));
    assert!(!trigger_fired_instead(event));
    assert!(trigger_fired_by_insert(event));
    assert!(!trigger_fired_by_update(event));
    assert!(!trigger_fired_by_delete(event));
    assert!(!trigger_fired_by_truncate(event));
    assert!(trigger_fired_for_row(event));
    assert!(!trigger_fired_for_statement(event));
}

#[test]
fn after_truncate_for_each_statement() {
    let event = TRIGGER_EVENT_AFTER | TRIGGER_EVENT_TRUNCATE;
    assert_eq!(event, 3);
    assert!(trigger_fired_after(event));
    assert!(!trigger_fired_before(event));
    assert!(trigger_fired_by_truncate(event));
    assert!(!trigger_fired_by_insert(event));
    assert!(trigger_fired_for_statement(event));
    assert!(!trigger_fired_for_row(event));
}

#[test]
fn instead_of_update_for_each_row() {
    let event = TRIGGER_EVENT_INSTEAD | TRIGGER_EVENT_UPDATE | TRIGGER_EVENT_ROW;
    assert_eq!(event, 22);
    assert!(trigger_fired_instead(event));
    assert!(!trigger_fired_before(event));
    assert!(!trigger_fired_after(event));
    assert!(trigger_fired_by_update(event));
    assert!(trigger_fired_for_row(event));
}

#[test]
fn every_event_has_one_operation_and_one_granularity() {
    for event in 0u32..64 {
        let operations = [
            trigger_fired_by_insert(event),
            trigger_fired_by_delete(event),
            trigger_fired_by_update(event),
            trigger_fired_by_truncate(event),
        ];
        assert_eq!(operations.iter().filter(|fired| **fired).count(), 1);
        assert_ne!(trigger_fired_for_row(event), trigger_fired_for_statement(event));
        let timings = [
            trigger_fired_before(event),
            trigger_fired_after(event),
            trigger_fired_instead(event),
        ];
        assert!(timings.iter().filter(|fired| **fired).count() <= 1);
    }
}

#[test]
fn readings_do_not_depend_on_each_other() {
    for event in 0u32..32 {
        let retimed = event ^ TRIGGER_EVENT_BEFORE;
        assert_eq!(trigger_fired_by_insert(retimed), trigger_fired_by_insert(event));
        assert_eq!(trigger_fired_by_update(retimed), trigger_fired_by_update(event));
        assert_eq!(trigger_fired_for_row(retimed), trigger_fired_for_row(event));
        let regrained = event ^ TRIGGER_EVENT_ROW;
        assert_eq!(trigger_fired_before(regrained), trigger_fired_before(event));
        assert_eq!(trigger_fired_by_delete(regrained), trigger_fired_by_delete(event));
    }
}

#[test]
fn only_the_trigger_manager_gives_a_firing() {
    let plain = FunctionCallInfo { context: None };
    assert!(!called_as_trigger(&plain));
    assert_eq!(trigger_data(&plain).err(), Some(TriggerError::NotCalledAsTrigger));

    let other = FunctionCallInfo { context: Some(CallContext::Other) };
    assert!(!called_as_trigger(&other));
    assert_eq!(trigger_data(&other).err(), Some(TriggerError::NotCalledAsTrigger));

    let fired = FunctionCallInfo { context: Some(CallContext::Trigger(firing(12, false, true))) };
    assert!(called_as_trigger(&fired));
    assert_eq!(trigger_data(&fired).unwrap().event, 12);
}

#[test]
fn insert_has_no_old_image() {
    let data = firing(12, false, true);
    assert_eq!(
        PgHeapTuple::from_trigger_data(&data, TriggerTuple::Old).err(),
        Some(TriggerError::NoSuchImage)
    );
    let current = PgHeapTuple::from_trigger_data(&data, TriggerTuple::Current).unwrap();
    assert_eq!(current.get_by_index::<i64>(1), Ok(Some(2)));
}

#[test]
fn insert_has_no_old_image_even_if_one_is_handed_over() {
    let data = firing(12, true, true);
    assert_eq!(
        PgHeapTuple::from_trigger_data(&data, TriggerTuple::Old).err(),
        Some(TriggerError::NoSuchImage)
    );
}

#[test]
fn update_has_both_images() {
    let data = firing(TRIGGER_EVENT_BEFORE | TRIGGER_EVENT_UPDATE | TRIGGER_EVENT_ROW, true, true);
    let old = PgHeapTuple::from_trigger_data(&data, TriggerTuple::Old).unwrap();
    let current = PgHeapTuple::from_trigger_data(&data, TriggerTuple::Current).unwrap();
    assert_eq!(old.get_by_index::<i64>(1), Ok(Some(1)));
    assert_eq!(current.get_by_index::<i64>(1), Ok(Some(2)));
}

#[test]
fn delete_has_only_the_old_image() {
    let data = firing(TRIGGER_EVENT_BEFORE | TRIGGER_EVENT_DELETE | TRIGGER_EVENT_ROW, true, false);
    assert!(PgHeapTuple::from_trigger_data(&data, TriggerTuple::Old).is_ok());
    assert_eq!(
        PgHeapTuple::from_trigger_data(&data, TriggerTuple::Current).err(),
        Some(TriggerError::NoSuchImage)
    );
}

#[test]
fn statement_firings_have_no_images() {
    let data = firing(TRIGGER_EVENT_BEFORE | TRIGGER_EVENT_UPDATE, true, true);
    assert!(PgHeapTuple::from_trigger_data(&data, TriggerTuple::Old).is_err());
    assert!(PgHeapTuple::from_trigger_data(&data, TriggerTuple::Current).is_err());
}

#[test]
fn missing_image_is_refused() {
    let data = firing(12, false, false);
    assert_eq!(
        PgHeapTuple::from_trigger_data(&data, TriggerTuple::Current).err(),
        Some(TriggerError::NoSuchImage)
    );
}
