//! A row as a sequence of named, typed fields: read by ordinal or by name,
//! and, once copied out of the host's image, rewritten by name.

use crate::datum::{Datum, FromDatum, IntoDatum, Oid, RoundTrip};
use crate::trigger::{image, TriggerData, TriggerError, TriggerTuple};
use crate::trigger::{trigger_fired_by_delete, trigger_fired_by_insert};
use crate::trigger::{trigger_fired_by_update, trigger_fired_for_row};
use vstd::prelude::*;

verus! {

/// One column of a row, as the host describes and holds it.
#[derive(Debug, Clone, PartialEq, Eq)]
pub struct Attribute {
    pub name: String,
    pub type_oid: Oid,
    pub datum: Datum,
    pub is_null: bool,
}

/// What an `Attribute` says, with its name as a sequence of characters.
pub struct Field {
    pub name: Seq<char>,
    pub type_oid: Oid,
    pub datum: Datum,
    pub is_null: bool,
}

impl View for Attribute {
    type V = Field;

    open spec fn view(&self) -> Field {
        Field {
            name: self.name@,
            type_oid: self.type_oid,
            datum: self.datum,
            is_null: self.is_null,
        }
    }
}

/// Why a field could not be read or written.
#[derive(Debug, Clone, Copy, PartialEq, Eq, Structural)]
pub enum TryFromDatumError {
    /// No field has this ordinal. Ordinals start at one.
    NoSuchAttributeNumber(usize),
    /// No field has this name.
    NoSuchAttributeName,
    /// The field's declared type is not one the requested type can stand for.
    IncompatibleTypes,
}

/// The fields of a row, in order.
pub open spec fn fields_of(attributes: Seq<Attribute>) -> Seq<Field> {
    Seq::new(attributes.len(), |i: int| attributes[i]@)
}

/// The first index at or after `start` whose field is called `name`, or the
/// number of fields where there is none.
pub open spec fn find_from(fields: Seq<Field>, name: Seq<char>, start: int) -> int
    decreases fields.len() - start,
{
    if start < 0 || start >= fields.len() {
        fields.len() as int
    } else if fields[start].name == name {
        start
    } else {
        find_from(fields, name, start + 1)
    }
}

/// The index of the first field called `name`.
pub open spec fn position(fields: Seq<Field>, name: Seq<char>) -> Option<int> {
    let i = find_from(fields, name, 0);
    if i < fields.len() {
        Some(i)
    } else {
        None
    }
}

/// A field read as a `T`: refused where the declared type does not fit,
/// absent where the field is null.
pub open spec fn read<T: FromDatum + IntoDatum>(field: Field) -> Result<
    Option<T>,
    TryFromDatumError,
> {
    if !T::compatible(field.type_oid) {
        Err(TryFromDatumError::IncompatibleTypes)
    } else if field.is_null {
        Ok(None)
    } else {
        Ok(Some(T::decoded(field.datum)))
    }
}

/// The field with the one-based ordinal `index`, read as a `T`.
pub open spec fn read_at<T: FromDatum + IntoDatum>(fields: Seq<Field>, index: usize) -> Result<
    Option<T>,
    TryFromDatumError,
> {
    if index == 0 || index > fields.len() {
        Err(TryFromDatumError::NoSuchAttributeNumber(index))
    } else {
        read::<T>(fields[index - 1])
    }
}

/// The first field called `name`, read as a `T`.
pub open spec fn read_named<T: FromDatum + IntoDatum>(fields: Seq<Field>, name: Seq<char>) -> Result<
    Option<T>,
    TryFromDatumError,
> {
    match position(fields, name) {
        Some(i) => read::<T>(fields[i]),
        None => Err(TryFromDatumError::NoSuchAttributeName),
    }
}

/// A field after `value` was stored in it: name and declared type stay.
pub open spec fn stored<T: IntoDatum>(field: Field, value: T) -> Field {
    Field {
        name: field.name,
        type_oid: field.type_oid,
        datum: match value.encoded() {
            Some(datum) => datum,
            None => 0,
        },
        is_null: value.encoded() is None,
    }
}

/// The row after `value` was stored in the first field called `name`.
pub open spec fn write_named<T: IntoDatum>(fields: Seq<Field>, name: Seq<char>, value: T) -> Result<
    Seq<Field>,
    TryFromDatumError,
> {
    match position(fields, name) {
        None => Err(TryFromDatumError::NoSuchAttributeName),
        Some(i) => if !T::compatible(fields[i].type_oid) {
            Err(TryFromDatumError::IncompatibleTypes)
        } else {
            Ok(fields.update(i, stored(fields[i], value)))
        },
    }
}

/// Where a search from `start` ends: at a field of that name that no field
/// between comes before, or past the end when none is left.
pub proof fn lemma_find_from(fields: Seq<Field>, name: Seq<char>, start: int)
    requires
        0 <= start <= fields.len(),
    ensures
        start <= find_from(fields, name, start) <= fields.len(),
        find_from(fields, name, start) < fields.len() ==> fields[find_from(
            fields,
            name,
            start,
        )].name == name,
        forall|j: int| start <= j < find_from(fields, name, start) ==> fields[j].name != name,
    decreases fields.len() - start,
{
    if start < fields.len() && fields[start].name != name {
        lemma_find_from(fields, name, start + 1);
    }
}

/// A search by name looks at names alone: two rows whose fields are called the
/// same, place by place, give the same answer.
pub proof fn lemma_find_from_names(a: Seq<Field>, b: Seq<Field>, name: Seq<char>, start: int)
    requires
        a.len() == b.len(),
        forall|j: int| 0 <= j < a.len() ==> a[j].name == b[j].name,
    ensures
        find_from(a, name, start) == find_from(b, name, start),
    decreases a.len() - start,
{
    if 0 <= start < a.len() && a[start].name != name {
        lemma_find_from_names(a, b, name, start + 1);
    }
}

/// After a value is stored under a name, reading that name gives the value back
/// (nothing, where the value was null). The row keeps its length, every name
/// keeps its position, and every field but the one written is as it was.
pub proof fn lemma_write_then_read<T: RoundTrip>(fields: Seq<Field>, name: Seq<char>, value: T)
    requires
        write_named::<T>(fields, name, value) is Ok,
    ensures
        ({
            let after = write_named::<T>(fields, name, value)->Ok_0;
            &&& after.len() == fields.len()
            &&& read_named::<T>(after, name) == Ok::<Option<T>, TryFromDatumError>(
                if value.encoded() is Some {
                    Some(value)
                } else {
                    None
                },
            )
            &&& forall|other: Seq<char>| position(after, other) == position(fields, other)
            &&& forall|j: int|
                0 <= j < fields.len() && position(fields, name) != Some(j) ==> after[j] == fields[j]
        }),
{
    let after = write_named::<T>(fields, name, value)->Ok_0;
    let at = position(fields, name)->Some_0;
    lemma_find_from(fields, name, 0);
    assert(after == fields.update(at, stored(fields[at], value)));
    T::lemma_round_trip(value);
    assert forall|other: Seq<char>| position(after, other) == position(fields, other) by {
        lemma_find_from_names(after, fields, other, 0);
    }
}

fn find_attribute(attributes: &Vec<Attribute>, name: &str) -> (found: Option<usize>)
    ensures
        match found {
            Some(i) => position(fields_of(attributes@), name@) == Some(i as int),
            None => position(fields_of(attributes@), name@) is None,
        },
{
    let wanted: String = name.to_owned();
    let mut i: usize = 0;
    while i < attributes.len()
        invariant
            i <= attributes.len(),
            wanted@ == name@,
            find_from(fields_of(attributes@), name@, 0) == find_from(
                fields_of(attributes@),
                name@,
                i as int,
            ),
        decreases attributes.len() - i,
    {
        if attributes[i].name == wanted {
            return Some(i);
        }
        i = i + 1;
    }
    None
}

fn read_attribute<T: FromDatum + IntoDatum>(attribute: &Attribute) -> (value: Result<
    Option<T>,
    TryFromDatumError,
>)
    ensures
        value == read::<T>(attribute@),
{
    if !T::is_compatible_with(attribute.type_oid) {
        Err(TryFromDatumError::IncompatibleTypes)
    } else {
        Ok(T::from_datum(attribute.datum, attribute.is_null))
    }
}

fn read_by_index<T: FromDatum + IntoDatum>(attributes: &Vec<Attribute>, index: usize) -> (value:
    Result<Option<T>, TryFromDatumError>)
    ensures
        value == read_at::<T>(fields_of(attributes@), index),
{
    if index == 0 || index > attributes.len() {
        Err(TryFromDatumError::NoSuchAttributeNumber(index))
    } else {
        read_attribute::<T>(&attributes[index - 1])
    }
}

fn read_by_name<T: FromDatum + IntoDatum>(attributes: &Vec<Attribute>, name: &str) -> (value:
    Result<Option<T>, TryFromDatumError>)
    ensures
        value == read_named::<T>(fields_of(attributes@), name@),
{
    match find_attribute(attributes, name) {
        Some(i) => read_attribute::<T>(&attributes[i]),
        None => Err(TryFromDatumError::NoSuchAttributeName),
    }
}

/// A read-only view of a row image that the host still owns.
pub struct PgHeapTuple<'a> {
    attributes: &'a Vec<Attribute>,
}

impl<'a> View for PgHeapTuple<'a> {
    type V = Seq<Field>;

    closed spec fn view(&self) -> Seq<Field> {
        fields_of(self.attributes@)
    }
}

impl<'a> PgHeapTuple<'a> {
    /// Views the fields of a row image without copying them.
    pub fn new(attributes: &'a Vec<Attribute>) -> (tuple: PgHeapTuple<'a>)
        ensures
            tuple@ == fields_of(attributes@),
    {
        PgHeapTuple { attributes }
    }

    /// Views one of the row images of a trigger firing. Fails where the
    /// operation has no such image, or the host handed none.
    pub fn from_trigger_data(data: &'a TriggerData, which: TriggerTuple) -> (tuple: Result<
        PgHeapTuple<'a>,
        TriggerError,
    >)
        ensures
            match image(*data, which) {
                Some(fields) => tuple matches Ok(view) && view@ == fields,
                None => tuple matches Err(error) && error == TriggerError::NoSuchImage,
            },
    {
        if !trigger_fired_for_row(data.event) {
            return Err(TriggerError::NoSuchImage);
        }
        let updating = trigger_fired_by_update(data.event);
        let row = match which {
            TriggerTuple::Current => {
                if !(updating || trigger_fired_by_insert(data.event)) {
                    return Err(TriggerError::NoSuchImage);
                }
                &data.new_row
            },
            TriggerTuple::Old => {
                if !(updating || trigger_fired_by_delete(data.event)) {
                    return Err(TriggerError::NoSuchImage);
                }
                &data.old_row
            },
        };
        match row {
            Some(attributes) => Ok(PgHeapTuple { attributes }),
            None => Err(TriggerError::NoSuchImage),
        }
    }

    /// How many fields the row has.
    pub fn len(&self) -> (n: usize)
        ensures
            n == self@.len(),
    {
        self.attributes.len()
    }

    /// Reads the field with the one-based ordinal `index` as a `T`.
    pub fn get_by_index<T: FromDatum + IntoDatum>(&self, index: usize) -> (value: Result<
        Option<T>,
        TryFromDatumError,
    >)
        ensures
            value == read_at::<T>(self@, index),
    {
        read_by_index::<T>(self.attributes, index)
    }

    /// Reads the first field called `name` as a `T`.
    pub fn get_by_name<T: FromDatum + IntoDatum>(&self, name: &str) -> (value: Result<
        Option<T>,
        TryFromDatumError,
    >)
        ensures
            value == read_named::<T>(self@, name@),
    {
        read_by_name::<T>(self.attributes, name)
    }

    /// Copies the row out of the host's image. The copy has the same fields and
    /// shares nothing with the image.
    pub fn into_owned(self) -> (owned: OwnedHeapTuple)
        ensures
            owned@ == self@,
    {
        let mut copy: Vec<Attribute> = Vec::new();
        let mut i: usize = 0;
        while i < self.attributes.len()
            invariant
                i <= self.attributes.len(),
                copy@.len() == i,
                forall|j: int| 0 <= j < i ==> copy@[j]@ == self.attributes@[j]@,
            decreases self.attributes.len() - i,
        {
            let attribute = &self.attributes[i];
            copy.push(
                Attribute {
                    name: attribute.name.clone(),
                    type_oid: attribute.type_oid,
                    datum: attribute.datum,
                    is_null: attribute.is_null,
                },
            );
            i = i + 1;
        }
        assert(fields_of(copy@) =~= fields_of(self.attributes@));
        OwnedHeapTuple { attributes: copy }
    }
}

/// A row of the extension's own, free to be rewritten.
pub struct OwnedHeapTuple {
    attributes: Vec<Attribute>,
}

impl View for OwnedHeapTuple {
    type V = Seq<Field>;

    closed spec fn view(&self) -> Seq<Field> {
        fields_of(self.attributes@)
    }
}

impl OwnedHeapTuple {
    /// How many fields the row has.
    pub fn len(&self) -> (n: usize)
        ensures
            n == self@.len(),
    {
        self.attributes.len()
    }

    /// Reads the field with the one-based ordinal `index` as a `T`.
    pub fn get_by_index<T: FromDatum + IntoDatum>(&self, index: usize) -> (value: Result<
        Option<T>,
        TryFromDatumError,
    >)
        ensures
            value == read_at::<T>(self@, index),
    {
        read_by_index::<T>(&self.attributes, index)
    }

    /// Reads the first field called `name` as a `T`.
    pub fn get_by_name<T: FromDatum + IntoDatum>(&self, name: &str) -> (value: Result<
        Option<T>,
        TryFromDatumError,
    >)
        ensures
            value == read_named::<T>(self@, name@),
    {
        read_by_name::<T>(&self.attributes, name)
    }

    /// Stores `value` in the first field called `name`. On an error the row is
    /// left as it was.
    pub fn set_by_name<T: IntoDatum>(&mut self, name: &str, value: T) -> (done: Result<
        (),
        TryFromDatumError,
    >)
        ensures
            match write_named::<T>(old(self)@, name@, value) {
                Ok(fields) => done is Ok && final(self)@ == fields,
                Err(error) => done == Err::<(), TryFromDatumError>(error) && final(self)@ == old(
                    self,
                )@,
            },
    {
        match find_attribute(&self.attributes, name) {
            None => Err(TryFromDatumError::NoSuchAttributeName),
            Some(i) => {
                let type_oid = self.attributes[i].type_oid;
                if !T::is_compatible_with(type_oid) {
                    Err(TryFromDatumError::IncompatibleTypes)
                } else {
                    let name = self.attributes[i].name.clone();
                    let replacement = match value.into_datum() {
                        Some(datum) => Attribute { name, type_oid, datum, is_null: false },
                        None => Attribute { name, type_oid, datum: 0, is_null: true },
                    };
                    self.attributes.set(i, replacement);
                    assert(fields_of(self.attributes@) =~= fields_of(old(self).attributes@).update(
                        i as int,
                        stored(fields_of(old(self).attributes@)[i as int], value),
                    ));
                    Ok(())
                }
            },
        }
    }

    /// The fields of the row, for the host's own routine that forms a row from them.
    pub fn attributes(&self) -> (attributes: &Vec<Attribute>)
        ensures
            fields_of(attributes@) == self@,
    {
        &self.attributes
    }
}

} // verus!
