//! Fixed-size composite values of the native interface, copied out by
//! value, with their canonical text.
use vstd::prelude::*;
use crate::text::{decimal, int_text, push_decimal, push_char, push_int, push_padded, zero_padded};

verus! {

/// A calendar date as the engine hands it out.
#[allow(non_camel_case_types)]
#[derive(Debug, Clone, Copy, PartialEq, Eq, Structural)]
pub struct duckdb_date {
    pub year: i32,
    pub month: i8,
    pub day: i8,
}

/// A time of day as the engine hands it out.
#[allow(non_camel_case_types)]
#[derive(Debug, Clone, Copy, PartialEq, Eq, Structural)]
pub struct duckdb_time {
    pub hour: i8,
    pub min: i8,
    pub sec: i8,
    pub micros: i16,
}

/// A date together with a time of day.
#[allow(non_camel_case_types)]
#[derive(Debug, Clone, Copy, PartialEq, Eq, Structural)]
pub struct duckdb_timestamp {
    pub date: duckdb_date,
    pub time: duckdb_time,
}

/// A span of months, days and microseconds.
#[allow(non_camel_case_types)]
#[derive(Debug, Clone, Copy, PartialEq, Eq, Structural)]
pub struct duckdb_interval {
    pub months: i32,
    pub days: i32,
    pub micros: i64,
}

/// A 128-bit signed integer split into two 64-bit halves.
#[allow(non_camel_case_types)]
#[derive(Debug, Clone, Copy, PartialEq, Eq, Structural)]
pub struct duckdb_hugeint {
    pub lower: u64,
    pub upper: i64,
}

/// A binary value, owned by the host once copied out of the native buffer.
#[allow(non_camel_case_types)]
#[derive(Debug)]
pub struct duckdb_blob {
    data: Vec<u8>,
    size: u64,
}

/// `YYYY-MM-DD`, each field zero-padded to its width.
pub open spec fn date_text(d: duckdb_date) -> Seq<char> {
    zero_padded(int_text(d.year as int), 4) + seq!['-'] + zero_padded(int_text(d.month as int), 2)
        + seq!['-'] + zero_padded(int_text(d.day as int), 2)
}

/// `HH:MM:SS.u`: hours, minutes and seconds zero-padded to two digits,
/// the microseconds written as they are, without padding.
pub open spec fn time_text(t: duckdb_time) -> Seq<char> {
    zero_padded(int_text(t.hour as int), 2) + seq![':'] + zero_padded(int_text(t.min as int), 2)
        + seq![':'] + zero_padded(int_text(t.sec as int), 2) + seq!['.'] + int_text(
        t.micros as int,
    )
}

/// The date text, `T`, then the time text.
pub open spec fn timestamp_text(ts: duckdb_timestamp) -> Seq<char> {
    date_text(ts.date) + seq!['T'] + time_text(ts.time)
}

pub open spec fn interval_text(iv: duckdb_interval) -> Seq<char> {
    "duckdb_interval { months: "@ + int_text(iv.months as int) + ", days: "@ + int_text(
        iv.days as int,
    ) + ", micros: "@ + int_text(iv.micros as int) + " }"@
}

/// The integer that the two halves stand for, in two's complement.
pub open spec fn hugeint_value(h: duckdb_hugeint) -> int {
    h.upper as int * 0x1_0000_0000_0000_0000 + h.lower as int
}

pub open spec fn hugeint_text(h: duckdb_hugeint) -> Seq<char> {
    "duckdb_hugeint { value: "@ + int_text(hugeint_value(h)) + " }"@
}

pub open spec fn blob_text(size: nat) -> Seq<char> {
    "duckdb_blob { size: "@ + decimal(size) + ", .. }"@
}

impl duckdb_blob {
    /// The size always counts the bytes held.
    #[verifier::type_invariant]
    spec fn inv(self) -> bool {
        self.size as int == self.data@.len()
    }

    pub closed spec fn bytes(&self) -> Seq<u8> {
        self.data@
    }

    /// Takes ownership of bytes copied out of the engine.
    pub fn new(data: Vec<u8>) -> (r: Self)
        ensures
            r.bytes() == data@,
    {
        let size = data.len() as u64;
        Self { data, size }
    }

    pub fn size(&self) -> (r: u64)
        ensures
            r as int == self.bytes().len(),
    {
        proof {
            use_type_invariant(self);
        }
        self.size
    }

    pub fn data(&self) -> (r: &[u8])
        ensures
            r@ == self.bytes(),
    {
        self.data.as_slice()
    }

    /// Names the size and leaves out the bytes.
    pub fn to_string(&self) -> (r: String)
        ensures
            r@ == blob_text(self.bytes().len()),
    {
        proof {
            use_type_invariant(self);
        }
        let mut s = String::new();
        s.append("duckdb_blob { size: ");
        push_decimal(&mut s, self.size as u128);
        s.append(", .. }");
        assert(s@ =~= blob_text(self.bytes().len()));
        s
    }
}

impl duckdb_date {
    pub fn new(year: i32, month: i8, day: i8) -> (r: Self)
        ensures
            r == (duckdb_date { year, month, day }),
    {
        Self { year, month, day }
    }

    pub fn to_string(&self) -> (r: String)
        ensures
            r@ == date_text(*self),
    {
        let mut s = String::new();
        self.write_into(&mut s);
        s
    }

    pub(crate) fn write_into(&self, out: &mut String)
        ensures
            final(out)@ == old(out)@ + date_text(*self),
    {
        let ghost start = out@;
        push_padded(out, self.year as i128, 4);
        push_char(out, '-');
        push_padded(out, self.month as i128, 2);
        push_char(out, '-');
        push_padded(out, self.day as i128, 2);
        assert(out@ =~= start + date_text(*self));
    }
}

impl duckdb_time {
    pub fn new(hour: i8, min: i8, sec: i8, micros: i16) -> (r: Self)
        ensures
            r == (duckdb_time { hour, min, sec, micros }),
    {
        Self { hour, min, sec, micros }
    }

    pub fn to_string(&self) -> (r: String)
        ensures
            r@ == time_text(*self),
    {
        let mut s = String::new();
        self.write_into(&mut s);
        s
    }

    pub(crate) fn write_into(&self, out: &mut String)
        ensures
            final(out)@ == old(out)@ + time_text(*self),
    {
        let ghost start = out@;
        push_padded(out, self.hour as i128, 2);
        push_char(out, ':');
        push_padded(out, self.min as i128, 2);
        push_char(out, ':');
        push_padded(out, self.sec as i128, 2);
        push_char(out, '.');
        push_int(out, self.micros as i128);
        assert(out@ =~= start + time_text(*self));
    }
}

impl duckdb_timestamp {
    pub fn new(date: duckdb_date, time: duckdb_time) -> (r: Self)
        ensures
            r == (duckdb_timestamp { date, time }),
    {
        Self { date, time }
    }

    pub fn to_string(&self) -> (r: String)
        ensures
            r@ == timestamp_text(*self),
    {
        let mut s = String::new();
        self.write_into(&mut s);
        s
    }

    pub(crate) fn write_into(&self, out: &mut String)
        ensures
            final(out)@ == old(out)@ + timestamp_text(*self),
    {
        let ghost start = out@;
        self.date.write_into(out);
        push_char(out, 'T');
        self.time.write_into(out);
        assert(out@ =~= start + timestamp_text(*self));
    }
}

impl duckdb_interval {
    pub fn to_string(&self) -> (r: String)
        ensures
            r@ == interval_text(*self),
    {
        let mut s = String::new();
        s.append("duckdb_interval { months: ");
        push_int(&mut s, self.months as i128);
        s.append(", days: ");
        push_int(&mut s, self.days as i128);
        s.append(", micros: ");
        push_int(&mut s, self.micros as i128);
        s.append(" }");
        assert(s@ =~= interval_text(*self));
        s
    }
}

impl duckdb_hugeint {
    /// The integer that the two halves stand for.
    pub fn value(&self) -> (r: i128)
        ensures
            r as int == hugeint_value(*self),
    {
        (self.upper as i128) * 0x1_0000_0000_0000_0000i128 + (self.lower as i128)
    }

    pub fn to_string(&self) -> (r: String)
        ensures
            r@ == hugeint_text(*self),
    {
        let mut s = String::new();
        s.append("duckdb_hugeint { value: ");
        push_int(&mut s, self.value());
        s.append(" }");
        assert(s@ =~= hugeint_text(*self));
        s
    }
}

} // verus!
