//! The sensor data record repository.
use vstd::prelude::*;

verus! {

/// The id of a record in the repository. Two ids are set apart: the one
/// that asks for the first record, and the one that marks the last.
#[derive(Debug, Clone, Copy, PartialEq, Eq, Structural)]
pub struct RecordId(u16);

impl View for RecordId {
    type V = u16;

    closed spec fn view(&self) -> u16 {
        self.0
    }
}

impl RecordId {
    /// The value of the id that asks for the first record.
    pub const FIRST: u16 = 0;

    /// The value of the id that marks the last record.
    pub const LAST: u16 = 0xFFFF;

    /// The id that asks for the first record.
    pub fn first() -> (id: Self)
        ensures
            id@ == Self::FIRST,
    {
        Self(Self::FIRST)
    }

    /// The id that marks the last record.
    pub fn last() -> (id: Self)
        ensures
            id@ == Self::LAST,
    {
        Self(Self::LAST)
    }

    /// The record id with the given value.
    pub fn new_raw(value: u16) -> (id: Self)
        ensures
            id@ == value,
    {
        Self(value)
    }

    /// Whether this is the id of the first record.
    pub fn is_first(&self) -> (b: bool)
        ensures
            b == (self@ == Self::FIRST),
    {
        self.0 == Self::FIRST
    }

    /// Whether this is the id of the last record.
    pub fn is_last(&self) -> (b: bool)
        ensures
            b == (self@ == Self::LAST),
    {
        self.0 == Self::LAST
    }

    /// The value of the id.
    pub fn value(&self) -> (value: u16)
        ensures
            value == self@,
    {
        self.0
    }
}

} // verus!
