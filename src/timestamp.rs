//! A calendar minute, held as plain fields, and its textual forms.
use vstd::prelude::*;
use crate::text::{padded_decimal, push_separator, push_padded_decimal};

verus! {

/// A target observation time, to the minute.
#[derive(Debug, Clone, Copy, PartialEq, Eq, Structural)]
pub struct Timestamp {
    pub year: u32,
    pub month: u32,
    pub day: u32,
    pub hour: u32,
    pub minute: u32,
}

impl Timestamp {
    /// Every field lies in its calendar range (the year has at most four digits).
    pub open spec fn wf(&self) -> bool {
        &&& self.year <= 9999
        &&& 1 <= self.month <= 12
        &&& 1 <= self.day <= 31
        &&& self.hour < 24
        &&& self.minute < 60
    }

    /// The `YYYYMMDD_HHMM` form used in remote file names.
    pub open spec fn compact(&self) -> Seq<char> {
        padded_decimal(self.year as nat, 4) + padded_decimal(self.month as nat, 2)
            + padded_decimal(self.day as nat, 2) + seq!['_'] + padded_decimal(
            self.hour as nat,
            2,
        ) + padded_decimal(self.minute as nat, 2)
    }

    /// Builds a timestamp; `None` when a field is out of its range.
    pub fn new(year: u32, month: u32, day: u32, hour: u32, minute: u32) -> (r: Option<Timestamp>)
        ensures
            r is Some <==> (year <= 9999 && 1 <= month <= 12 && 1 <= day <= 31 && hour < 24
                && minute < 60),
            r matches Some(t) ==> t.wf() && t == (Timestamp { year, month, day, hour, minute }),
    {
        if year <= 9999 && 1 <= month && month <= 12 && 1 <= day && day <= 31 && hour < 24
            && minute < 60 {
            Some(Timestamp { year, month, day, hour, minute })
        } else {
            None
        }
    }

    /// The `YYYYMMDD_HHMM` form of this timestamp.
    pub fn format_compact(&self) -> (r: String)
        ensures
            r@ == self.compact(),
    {
        let mut out = String::new();
        push_padded_decimal(&mut out, self.year, 4);
        push_padded_decimal(&mut out, self.month, 2);
        push_padded_decimal(&mut out, self.day, 2);
        push_separator(&mut out, '_');
        push_padded_decimal(&mut out, self.hour, 2);
        push_padded_decimal(&mut out, self.minute, 2);
        out
    }
}

/// The remote directory holding the files of `ts`: `<root>YYYYMM/DD/HH/`.
pub open spec fn remote_directory(root: Seq<char>, ts: Timestamp) -> Seq<char> {
    root + padded_decimal(ts.year as nat, 4) + padded_decimal(ts.month as nat, 2) + seq!['/']
        + padded_decimal(ts.day as nat, 2) + seq!['/'] + padded_decimal(ts.hour as nat, 2)
        + seq!['/']
}

/// The remote directory holding the files of `datetime`, under `root`
/// (which ends with `/`, for instance `/jma/hsd/`).
pub fn get_remote_directory_path(root: &str, datetime: &Timestamp) -> (r: String)
    ensures
        r@ == remote_directory(root@, *datetime),
{
    let mut out = String::from_str(root);
    push_padded_decimal(&mut out, datetime.year, 4);
    push_padded_decimal(&mut out, datetime.month, 2);
    push_separator(&mut out, '/');
    push_padded_decimal(&mut out, datetime.day, 2);
    push_separator(&mut out, '/');
    push_padded_decimal(&mut out, datetime.hour, 2);
    push_separator(&mut out, '/');
    out
}

} // verus!
