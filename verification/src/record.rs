//! The shared record: an immutable string identifier together with a
//! mutable integer value.
//!
//! Each mutating operation yields the human-readable log line that
//! describes it (old value, new value); emitting the line is left to the
//! caller, so the record itself stays free of output concerns.

use vstd::prelude::*;
use vstd::string::StringExecFns;

use crate::decimal::decimal_int;

verus! {

/// The mathematical content of a record: its identifier as a sequence of
/// characters and its value as an unbounded integer.
pub struct RecordModel {
    pub id: Seq<char>,
    pub value: int,
}

/// A record with an identifier fixed at construction and a value that may
/// change any number of times.
pub struct SharedData {
    id: String,
    value: i32,
}

/// The log line that `display` produces for a record.
pub open spec fn display_line(m: RecordModel) -> Seq<char> {
    "Data ID: "@ + m.id + ", Current Value: "@ + decimal_int(m.value)
}

/// The log line that `update_value` produces when the value moves from
/// `old_value` to `new_value`.
pub open spec fn update_line(id: Seq<char>, old_value: int, new_value: int) -> Seq<char> {
    "Updating value for '"@ + id + "' from "@ + decimal_int(old_value) + " to "@ + decimal_int(
        new_value,
    )
}

/// The log line that `increment_value` produces when the value moves from
/// `old_value` to `old_value + 1`.
pub open spec fn increment_line(id: Seq<char>, old_value: int) -> Seq<char> {
    "Incrementing value for '"@ + id + "' from "@ + decimal_int(old_value) + " to "@ + decimal_int(
        old_value + 1,
    )
}

impl View for SharedData {
    type V = RecordModel;

    closed spec fn view(&self) -> RecordModel {
        RecordModel { id: self.id@, value: self.value as int }
    }
}

impl SharedData {
    /// Constructs a record; always succeeds and stores the identifier and
    /// the initial value unchanged.
    pub fn new(id: &str, initial_value: i32) -> (r: Self)
        ensures
            r@.id == id@,
            r@.value == initial_value as int,
    {
        SharedData { id: String::from_str(id), value: initial_value }
    }

    /// The identifier, as set at construction.
    pub fn id(&self) -> (r: &String)
        ensures
            r@ == self@.id,
    {
        &self.id
    }

    /// The current value.
    pub fn value(&self) -> (r: i32)
        ensures
            r as int == self@.value,
    {
        self.value
    }

    /// Replaces the value; the identifier stays as it was. Returns the log
    /// line describing the old and the new value.
    pub fn update_value(&mut self, new_value: i32) -> (log: String)
        ensures
            final(self)@.id == old(self)@.id,
            final(self)@.value == new_value as int,
            log@ == update_line(old(self)@.id, old(self)@.value, new_value as int),
    {
        let mut log = String::from_str("Updating value for '");
        log.append(self.id.as_str());
        log.append("' from ");
        let old_digits = crate::decimal::format_i32(self.value);
        log.append(old_digits.as_str());
        log.append(" to ");
        let new_digits = crate::decimal::format_i32(new_value);
        log.append(new_digits.as_str());
        self.value = new_value;
        log
    }

    /// Adds one to the value; equivalent to replacing the value with its
    /// successor. Returns the log line describing the old and the new value.
    pub fn increment_value(&mut self) -> (log: String)
        requires
            old(self)@.value < i32::MAX as int,
        ensures
            final(self)@.id == old(self)@.id,
            final(self)@.value == old(self)@.value + 1,
            log@ == increment_line(old(self)@.id, old(self)@.value),
    {
        let mut log = String::from_str("Incrementing value for '");
        log.append(self.id.as_str());
        log.append("' from ");
        let old_digits = crate::decimal::format_i32(self.value);
        log.append(old_digits.as_str());
        log.append(" to ");
        let new_digits = crate::decimal::format_i32(self.value + 1);
        log.append(new_digits.as_str());
        self.value = self.value + 1;
        log
    }

    /// The log line showing the identifier and the current value; reads
    /// without mutating.
    pub fn display(&self) -> (log: String)
        ensures
            log@ == display_line(self@),
    {
        let mut log = String::from_str("Data ID: ");
        log.append(self.id.as_str());
        log.append(", Current Value: ");
        let digits = crate::decimal::format_i32(self.value);
        log.append(digits.as_str());
        log
    }
}

} // verus!
