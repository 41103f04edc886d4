//! Calendar dates and timestamps as plain values, with verified formatting.
//!
//! The service speaks dates as `YYYY-MM-DD` and timestamps as RFC 3339 text
//! with an explicit UTC offset, such as `2022-03-12T00:31:57+09:00`. The
//! types here hold the fields as integers; what only a time-zone database can
//! compute (the offset for a zone, the time now) is supplied by the caller.

use vstd::prelude::*;
use vstd::string::*;

use crate::text::{pad2, pad4, push_pad2, push_pad4};

verus! {

/// A calendar date, no time component.
#[derive(Debug, Clone, Copy, PartialEq, Eq, Structural)]
pub struct Date {
    pub year: u16,
    pub month: u8,
    pub day: u8,
}

/// A timestamp with an explicit UTC offset in minutes.
#[derive(Debug, Clone, Copy, PartialEq, Eq, Structural)]
pub struct Timestamp {
    pub date: Date,
    pub hour: u8,
    pub minute: u8,
    pub second: u8,
    /// Minutes east of UTC; `+09:00` is 540.
    pub offset_minutes: i32,
}

impl Date {
    /// The fields name a representable calendar date.
    pub open spec fn wf(self) -> bool {
        self.year <= 9999 && 1 <= self.month <= 12 && 1 <= self.day <= 31
    }

    /// The `YYYY-MM-DD` form of this date.
    pub open spec fn iso_spec(self) -> Seq<char> {
        pad4(self.year as nat) + seq!['-'] + pad2(self.month as nat) + seq!['-'] + pad2(
            self.day as nat,
        )
    }

    /// Formats this date as `YYYY-MM-DD`.
    pub fn format_iso(&self) -> (r: String)
        requires
            self.wf(),
        ensures
            r@ == self.iso_spec(),
    {
        let mut r = String::new();
        push_pad4(&mut r, self.year);
        push_dash(&mut r);
        push_pad2(&mut r, self.month);
        push_dash(&mut r);
        push_pad2(&mut r, self.day);
        proof {
            assert(r@ =~= self.iso_spec());
        }
        r
    }
}

impl Timestamp {
    /// The fields name a representable timestamp: a valid date, in-range
    /// clock fields, and an offset strictly within one day of UTC.
    pub open spec fn wf(self) -> bool {
        self.date.wf() && self.hour < 24 && self.minute < 60 && self.second < 60 && -1440
            < self.offset_minutes < 1440
    }

    /// The `+HH:MM` or `-HH:MM` form of the offset; zero is `+00:00`.
    pub open spec fn offset_spec(self) -> Seq<char> {
        let mag = if self.offset_minutes < 0 {
            -self.offset_minutes as int
        } else {
            self.offset_minutes as int
        };
        (if self.offset_minutes < 0 {
            seq!['-']
        } else {
            seq!['+']
        }) + pad2((mag / 60) as nat) + seq![':'] + pad2((mag % 60) as nat)
    }

    /// The RFC 3339 form of this timestamp.
    pub open spec fn rfc3339_spec(self) -> Seq<char> {
        self.date.iso_spec() + seq!['T'] + pad2(self.hour as nat) + seq![':'] + pad2(
            self.minute as nat,
        ) + seq![':'] + pad2(self.second as nat) + self.offset_spec()
    }

    /// Formats this timestamp as RFC 3339 text with an explicit offset, for
    /// example `2022-03-12T00:31:57+09:00`.
    pub fn format_rfc3339(&self) -> (r: String)
        requires
            self.wf(),
        ensures
            r@ == self.rfc3339_spec(),
    {
        let mut r = self.date.format_iso();
        proof {
            reveal_strlit("T");
            assert("T"@ =~= seq!['T']);
        }
        r.append("T");
        push_pad2(&mut r, self.hour);
        push_colon(&mut r);
        push_pad2(&mut r, self.minute);
        push_colon(&mut r);
        push_pad2(&mut r, self.second);
        let mag: u32 = if self.offset_minutes < 0 {
            (-(self.offset_minutes as i64)) as u32
        } else {
            self.offset_minutes as u32
        };
        if self.offset_minutes < 0 {
            proof {
                reveal_strlit("-");
                assert("-"@ =~= seq!['-']);
            }
            r.append("-");
        } else {
            proof {
                reveal_strlit("+");
                assert("+"@ =~= seq!['+']);
            }
            r.append("+");
        }
        push_pad2(&mut r, (mag / 60) as u8);
        push_colon(&mut r);
        push_pad2(&mut r, (mag % 60) as u8);
        proof {
            assert(r@ =~= self.rfc3339_spec());
        }
        r
    }
}

/// Appends one `'-'`.
fn push_dash(s: &mut String)
    ensures
        final(s)@ == old(s)@ + seq!['-'],
{
    proof {
        reveal_strlit("-");
        assert("-"@ =~= seq!['-']);
    }
    s.append("-");
}

/// Appends one `':'`.
fn push_colon(s: &mut String)
    ensures
        final(s)@ == old(s)@ + seq![':'],
{
    proof {
        reveal_strlit(":");
        assert(":"@ =~= seq![':']);
    }
    s.append(":");
}

} // verus!
