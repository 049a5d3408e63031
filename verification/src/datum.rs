//! The host's untyped value word and the null-aware conversions to and from it.

use vstd::prelude::*;

verus! {

/// A machine word owned by the host: a by-value scalar, or an address in host memory.
pub type Datum = usize;

/// Identifier of a type in the host's catalog.
pub type Oid = u32;

pub const BOOLOID: Oid = 16;

pub const INT8OID: Oid = 20;

pub const INT2OID: Oid = 21;

pub const INT4OID: Oid = 23;

pub const TEXTOID: Oid = 25;

pub const OIDOID: Oid = 26;

pub const VARCHAROID: Oid = 1043;

pub const JSONBOID: Oid = 3802;

/// The polymorphic pseudo-type: stands for a value of any type.
pub const ANYELEMENTOID: Oid = 2283;

/// Reading a typed value out of a word and its null flag.
pub trait FromDatum: Sized {
    /// The value that a non-null word of this type stands for.
    spec fn decoded(datum: Datum) -> Self;

    /// Absent when the flag says null, whatever the word holds; otherwise the
    /// value the word stands for.
    fn from_datum(datum: Datum, is_null: bool) -> (value: Option<Self>)
        ensures
            value == (if is_null {
                None
            } else {
                Some(Self::decoded(datum))
            }),
    ;
}

/// Writing a typed value as a word.
pub trait IntoDatum: Sized {
    /// The word that stands for the value, or `None` where the value is null.
    spec fn encoded(self) -> Option<Datum>;

    /// The catalog identifier of the type.
    spec fn oid() -> Oid;

    fn into_datum(self) -> (datum: Option<Datum>)
        ensures
            datum == self.encoded(),
    ;

    /// Whether a word declared with the type `other` may be read as this type.
    spec fn compatible(other: Oid) -> bool;

    fn type_oid() -> (oid: Oid)
        ensures
            oid == Self::oid(),
    ;

    fn is_compatible_with(other: Oid) -> (yes: bool)
        ensures
            yes == Self::compatible(other),
    ;
}

/// A type whose two conversions undo each other.
pub trait RoundTrip: FromDatum + IntoDatum {
    /// Reading back the word that a value was written as gives that value.
    proof fn lemma_round_trip(value: Self)
        ensures
            value.encoded() matches Some(datum) ==> Self::decoded(datum) == value,
    ;
}

/// Writes a value and reads the word back: always the value itself, unless it is null.
pub fn round_trip<T: RoundTrip>(value: T) -> (back: Option<T>)
    ensures
        back == (if value.encoded() is Some {
            Some(value)
        } else {
            None
        }),
{
    proof {
        T::lemma_round_trip(value);
    }
    match value.into_datum() {
        Some(datum) => T::from_datum(datum, false),
        None => None,
    }
}

/// A value of a type that is not yet known: the word is carried, not interpreted.
#[derive(Debug, Clone, Copy)]
pub struct AnyElement {
    datum: Datum,
}

impl AnyElement {
    /// The word this value carries.
    pub closed spec fn word(self) -> Datum {
        self.datum
    }

    /// Hands the carried word out unchanged.
    pub fn datum(&self) -> (d: Datum)
        ensures
            d == self.word(),
    {
        self.datum
    }

    /// Interprets the carried word as a `T`. The word is never null here, so a
    /// value always comes back.
    pub fn into<T: FromDatum>(&self) -> (value: Option<T>)
        ensures
            value == Some(T::decoded(self.word())),
    {
        T::from_datum(self.datum(), false)
    }
}

impl FromDatum for AnyElement {
    closed spec fn decoded(datum: Datum) -> AnyElement {
        AnyElement { datum }
    }

    fn from_datum(datum: Datum, is_null: bool) -> (value: Option<AnyElement>)
        ensures
            !is_null ==> value.unwrap().word() == datum,
    {
        if is_null {
            None
        } else {
            Some(AnyElement { datum })
        }
    }
}

impl IntoDatum for AnyElement {
    open spec fn encoded(self) -> Option<Datum> {
        Some(self.word())
    }

    open spec fn oid() -> Oid {
        ANYELEMENTOID
    }

    fn into_datum(self) -> (datum: Option<Datum>) {
        Some(self.datum)
    }

    open spec fn compatible(other: Oid) -> bool {
        true
    }

    fn type_oid() -> (oid: Oid) {
        ANYELEMENTOID
    }

    fn is_compatible_with(other: Oid) -> (yes: bool) {
        true
    }
}

impl RoundTrip for AnyElement {
    proof fn lemma_round_trip(value: AnyElement) {
    }
}

/// A word is all an `AnyElement` holds: two that carry the same word are the same,
/// and the one read from a word carries that word.
pub proof fn lemma_any_element_is_its_word(a: AnyElement, b: AnyElement, datum: Datum)
    ensures
        a.word() == b.word() ==> a == b,
        <AnyElement as FromDatum>::decoded(datum).word() == datum,
{
}

/// A character string in host memory. The word is its address; only the host's
/// own routines can follow it.
#[derive(Debug, Clone, Copy, PartialEq, Eq)]
pub struct Text {
    pub address: Datum,
}

impl FromDatum for Text {
    open spec fn decoded(datum: Datum) -> Text {
        Text { address: datum }
    }

    fn from_datum(datum: Datum, is_null: bool) -> (value: Option<Text>) {
        if is_null {
            None
        } else {
            Some(Text { address: datum })
        }
    }
}

impl IntoDatum for Text {
    open spec fn encoded(self) -> Option<Datum> {
        Some(self.address)
    }

    open spec fn oid() -> Oid {
        TEXTOID
    }

    fn into_datum(self) -> (datum: Option<Datum>) {
        Some(self.address)
    }

    open spec fn compatible(other: Oid) -> bool {
        other == TEXTOID || other == VARCHAROID
    }

    fn type_oid() -> (oid: Oid) {
        TEXTOID
    }

    fn is_compatible_with(other: Oid) -> (yes: bool) {
        other == TEXTOID || other == VARCHAROID
    }
}

impl RoundTrip for Text {
    proof fn lemma_round_trip(value: Text) {
    }
}

/// A binary JSON document in host memory, held by its address like `Text`.
#[derive(Debug, Clone, Copy, PartialEq, Eq)]
pub struct JsonB {
    pub address: Datum,
}

impl FromDatum for JsonB {
    open spec fn decoded(datum: Datum) -> JsonB {
        JsonB { address: datum }
    }

    fn from_datum(datum: Datum, is_null: bool) -> (value: Option<JsonB>) {
        if is_null {
            None
        } else {
            Some(JsonB { address: datum })
        }
    }
}

impl IntoDatum for JsonB {
    open spec fn encoded(self) -> Option<Datum> {
        Some(self.address)
    }

    open spec fn oid() -> Oid {
        JSONBOID
    }

    fn into_datum(self) -> (datum: Option<Datum>) {
        Some(self.address)
    }

    open spec fn compatible(other: Oid) -> bool {
        other == JSONBOID
    }

    fn type_oid() -> (oid: Oid) {
        JSONBOID
    }

    fn is_compatible_with(other: Oid) -> (yes: bool) {
        other == JSONBOID
    }
}

impl RoundTrip for JsonB {
    proof fn lemma_round_trip(value: JsonB) {
    }
}

impl FromDatum for bool {
    open spec fn decoded(datum: Datum) -> bool {
        datum != 0
    }

    fn from_datum(datum: Datum, is_null: bool) -> (value: Option<bool>) {
        if is_null {
            None
        } else {
            Some(datum != 0)
        }
    }
}

impl IntoDatum for bool {
    open spec fn encoded(self) -> Option<Datum> {
        Some(if self { 1usize } else { 0usize })
    }

    open spec fn oid() -> Oid {
        BOOLOID
    }

    fn into_datum(self) -> (datum: Option<Datum>) {
        Some(if self { 1 } else { 0 })
    }

    open spec fn compatible(other: Oid) -> bool {
        other == BOOLOID
    }

    fn type_oid() -> (oid: Oid) {
        BOOLOID
    }

    fn is_compatible_with(other: Oid) -> (yes: bool) {
        other == BOOLOID
    }
}

impl RoundTrip for bool {
    proof fn lemma_round_trip(value: bool) {
    }
}

impl FromDatum for i64 {
    open spec fn decoded(datum: Datum) -> i64 {
        datum as i64
    }

    fn from_datum(datum: Datum, is_null: bool) -> (value: Option<i64>) {
        if is_null {
            None
        } else {
            Some(#[verifier::truncate] (datum as i64))
        }
    }
}

impl IntoDatum for i64 {
    open spec fn encoded(self) -> Option<Datum> {
        Some(self as usize)
    }

    open spec fn oid() -> Oid {
        INT8OID
    }

    fn into_datum(self) -> (datum: Option<Datum>) {
        Some(#[verifier::truncate] (self as usize))
    }

    open spec fn compatible(other: Oid) -> bool {
        other == INT8OID
    }

    fn type_oid() -> (oid: Oid) {
        INT8OID
    }

    fn is_compatible_with(other: Oid) -> (yes: bool) {
        other == INT8OID
    }
}

/// On a host whose word has 64 bits, where alone it passes an `i64` by value,
/// reading back the word that an `i64` was written as gives that `i64`.
pub proof fn lemma_round_trip_i64(value: i64)
    requires
        usize::BITS == 64,
    ensures
        value.encoded() matches Some(datum) && <i64 as FromDatum>::decoded(datum) == value,
{
    assert((value as usize) as i64 == value) by (bit_vector)
        requires
            usize::BITS == 64,
    ;
}

impl FromDatum for i32 {
    open spec fn decoded(datum: Datum) -> i32 {
        datum as i32
    }

    fn from_datum(datum: Datum, is_null: bool) -> (value: Option<i32>) {
        if is_null {
            None
        } else {
            Some(#[verifier::truncate] (datum as i32))
        }
    }
}

impl IntoDatum for i32 {
    open spec fn encoded(self) -> Option<Datum> {
        Some(self as usize)
    }

    open spec fn oid() -> Oid {
        INT4OID
    }

    fn into_datum(self) -> (datum: Option<Datum>) {
        Some(#[verifier::truncate] (self as usize))
    }

    open spec fn compatible(other: Oid) -> bool {
        other == INT4OID
    }

    fn type_oid() -> (oid: Oid) {
        INT4OID
    }

    fn is_compatible_with(other: Oid) -> (yes: bool) {
        other == INT4OID
    }
}

impl RoundTrip for i32 {
    proof fn lemma_round_trip(value: i32) {
        assert((value as usize) as i32 == value) by (bit_vector);
    }
}

impl FromDatum for i16 {
    open spec fn decoded(datum: Datum) -> i16 {
        datum as i16
    }

    fn from_datum(datum: Datum, is_null: bool) -> (value: Option<i16>) {
        if is_null {
            None
        } else {
            Some(#[verifier::truncate] (datum as i16))
        }
    }
}

impl IntoDatum for i16 {
    open spec fn encoded(self) -> Option<Datum> {
        Some(self as usize)
    }

    open spec fn oid() -> Oid {
        INT2OID
    }

    fn into_datum(self) -> (datum: Option<Datum>) {
        Some(#[verifier::truncate] (self as usize))
    }

    open spec fn compatible(other: Oid) -> bool {
        other == INT2OID
    }

    fn type_oid() -> (oid: Oid) {
        INT2OID
    }

    fn is_compatible_with(other: Oid) -> (yes: bool) {
        other == INT2OID
    }
}

impl RoundTrip for i16 {
    proof fn lemma_round_trip(value: i16) {
        assert((value as usize) as i16 == value) by (bit_vector);
    }
}

impl FromDatum for u32 {
    open spec fn decoded(datum: Datum) -> u32 {
        datum as u32
    }

    fn from_datum(datum: Datum, is_null: bool) -> (value: Option<u32>) {
        if is_null {
            None
        } else {
            Some(#[verifier::truncate] (datum as u32))
        }
    }
}

impl IntoDatum for u32 {
    open spec fn encoded(self) -> Option<Datum> {
        Some(self as usize)
    }

    open spec fn oid() -> Oid {
        OIDOID
    }

    fn into_datum(self) -> (datum: Option<Datum>) {
        Some(self as usize)
    }

    open spec fn compatible(other: Oid) -> bool {
        other == OIDOID
    }

    fn type_oid() -> (oid: Oid) {
        OIDOID
    }

    fn is_compatible_with(other: Oid) -> (yes: bool) {
        other == OIDOID
    }
}

impl RoundTrip for u32 {
    proof fn lemma_round_trip(value: u32) {
        assert((value as usize) as u32 == value) by (bit_vector);
    }
}

} // verus!
