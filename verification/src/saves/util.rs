//! Small values shared by the save formats: entity ids, respawn points and play time.
use vstd::prelude::*;

use std::time::Duration;

use crate::utils::text::{padded, padded_text, push_char, push_str};

verus! {

/// The whole number of milliseconds in a duration.
pub uninterp spec fn duration_millis(d: Duration) -> nat;

/// `Duration::from_millis` from std: a duration of exactly `millis` milliseconds.
#[verifier::external_body]
fn duration_from_millis(millis: u64) -> (d: Duration)
    ensures
        duration_millis(d) == millis,
{
    Duration::from_millis(millis)
}

/// `Duration::as_millis` from std: the whole milliseconds of the duration.
#[verifier::external_body]
fn duration_as_millis(d: &Duration) -> (r: u128)
    ensures
        r == duration_millis(*d),
{
    d.as_millis()
}

#[derive(Debug, Clone)]
pub struct EntityID {
    pub key: String,
}

impl View for EntityID {
    type V = Seq<char>;

    open spec fn view(&self) -> Seq<char> {
        self.key@
    }
}

impl EntityID {
    /// A copy of the id.
    pub fn duplicate(&self) -> (r: Self)
        ensures
            r@ == self@,
    {
        EntityID { key: self.key.clone() }
    }
}

#[derive(Debug, Clone, Copy, PartialEq, Eq, Structural)]
pub struct RespawnPoint {
    pub x: i64,
    pub y: i64,
}

/// Used to represent a duration of playtime.
///
/// The representation for this is the same as Win32's FileTime.
/// It measures 100-nanosecond intervals since January 1st, 1601.
#[derive(Debug, Clone, Copy, PartialEq, Eq, Structural)]
pub struct FileTime(pub u64);

impl DeepView for FileTime {
    type V = u64;

    open spec fn deep_view(&self) -> u64 {
        self.0
    }
}

/// The time, in milliseconds, of `hours`, `minutes`, `seconds` and `millis` together.
pub open spec fn parts_millis(hours: u64, minutes: u64, seconds: u64, millis: u64) -> int {
    ((hours * 60 + minutes) * 60 + seconds) * 1000 + millis
}

/// The text of `ms` milliseconds of play time: hours, minutes, seconds and
/// milliseconds separated by colons.
pub open spec fn file_time_text(ms: nat) -> Seq<char> {
    padded(ms / 3600000, 2) + seq![':'] + padded((ms / 60000) % 60, 2) + seq![':'] + padded((ms / 1000) % 60, 2)
        + seq![':'] + padded(ms % 1000, 3)
}

impl FileTime {
    /// The time as a [Duration], to the millisecond.
    pub fn as_duration(&self) -> (d: Duration)
        ensures
            duration_millis(d) == self.0 / 10000,
    {
        duration_from_millis(self.as_millis())
    }

    /// The time in whole milliseconds.
    pub fn as_millis(&self) -> (r: u64)
        ensures
            r == self.0 / 10000,
    {
        self.0 / 10000
    }

    /// The time of a [Duration], to the millisecond (milliseconds past 64
    /// bits wrap, as the cast does).
    pub fn from_duration(dur: Duration) -> (t: Self)
        requires
            (duration_millis(dur) % 0x1_0000_0000_0000_0000) * 10000 <= u64::MAX,
        ensures
            t.0 == (duration_millis(dur) % 0x1_0000_0000_0000_0000) * 10000,
    {
        let ms = duration_as_millis(&dur);
        let m = #[verifier::truncate] (ms as u64);
        proof {
            assert(m == ms % 0x1_0000_0000_0000_0000) by (bit_vector)
                requires
                    m == #[verifier::truncate] (ms as u64),
            ;
        }
        Self::from_millis(m)
    }

    /// The time of a [Duration] as [FileTime::from_duration] gives it, or
    /// `None` where that time does not fit in 64 bits.
    pub fn checked_from_duration(dur: Duration) -> (r: Option<Self>)
        ensures
            match r {
                Some(t) => (duration_millis(dur) % 0x1_0000_0000_0000_0000) * 10000 <= u64::MAX && t.0 == (
                duration_millis(dur) % 0x1_0000_0000_0000_0000) * 10000,
                None => (duration_millis(dur) % 0x1_0000_0000_0000_0000) * 10000 > u64::MAX,
            },
    {
        let ms = duration_as_millis(&dur);
        let m = #[verifier::truncate] (ms as u64);
        proof {
            assert(m == ms % 0x1_0000_0000_0000_0000) by (bit_vector)
                requires
                    m == #[verifier::truncate] (ms as u64),
            ;
        }
        if m <= u64::MAX / 10000 {
            proof {
                assert(m * 10000 <= u64::MAX) by (nonlinear_arith)
                    requires
                        m <= u64::MAX / 10000,
                ;
            }
            Some(Self::from_millis(m))
        } else {
            proof {
                assert(m * 10000 > u64::MAX) by (nonlinear_arith)
                    requires
                        m > u64::MAX / 10000,
                ;
            }
            None
        }
    }

    /// Adds a [Duration] as [FileTime::add_duration] does, where the sum fits
    /// in 64 bits, and says whether it did; otherwise leaves the time alone.
    pub fn checked_add_duration(&mut self, dur: Duration) -> (r: bool)
        ensures
            r == (old(self).0 + (duration_millis(dur) % 0x1_0000_0000_0000_0000) * 10000 <= u64::MAX),
            r ==> final(self).0 == old(self).0 + (duration_millis(dur) % 0x1_0000_0000_0000_0000) * 10000,
            !r ==> *final(self) == *old(self),
    {
        let ms = duration_as_millis(&dur);
        let m = #[verifier::truncate] (ms as u64);
        proof {
            assert(m == ms % 0x1_0000_0000_0000_0000) by (bit_vector)
                requires
                    m == #[verifier::truncate] (ms as u64),
            ;
        }
        let room = (u64::MAX - self.0) / 10000;
        if m <= room {
            proof {
                assert(self.0 + m * 10000 <= u64::MAX) by (nonlinear_arith)
                    requires
                        m <= room,
                        room == (u64::MAX - self.0) / 10000,
                        self.0 <= u64::MAX,
                ;
            }
            self.add_millis(m);
            true
        } else {
            proof {
                assert(self.0 + m * 10000 > u64::MAX) by (nonlinear_arith)
                    requires
                        m > room,
                        room == (u64::MAX - self.0) / 10000,
                        self.0 <= u64::MAX,
                ;
            }
            false
        }
    }

    pub fn from_millis(millis: u64) -> (t: Self)
        requires
            millis * 10000 <= u64::MAX,
        ensures
            t.0 == millis * 10000,
    {
        FileTime(millis * 10000)
    }

    pub fn from_parts(hours: u64, minutes: u64, seconds: u64, millis: u64) -> (t: Self)
        requires
            parts_millis(hours, minutes, seconds, millis) * 10000 <= u64::MAX,
        ensures
            t.0 == parts_millis(hours, minutes, seconds, millis) * 10000,
    {
        Self::from_millis(Self::parts_to_millis(hours, minutes, seconds, millis))
    }

    pub fn add_duration(&mut self, dur: Duration)
        requires
            old(self).0 + (duration_millis(dur) % 0x1_0000_0000_0000_0000) * 10000 <= u64::MAX,
        ensures
            final(self).0 == old(self).0 + (duration_millis(dur) % 0x1_0000_0000_0000_0000) * 10000,
    {
        let ms = duration_as_millis(&dur);
        let m = #[verifier::truncate] (ms as u64);
        proof {
            assert(m == ms % 0x1_0000_0000_0000_0000) by (bit_vector)
                requires
                    m == #[verifier::truncate] (ms as u64),
            ;
        }
        self.add_millis(m)
    }

    pub fn add_millis(&mut self, millis: u64)
        requires
            old(self).0 + millis * 10000 <= u64::MAX,
        ensures
            final(self).0 == old(self).0 + millis * 10000,
    {
        self.0 = self.0 + millis * 10000;
    }

    pub fn add_parts(&mut self, hours: u64, minutes: u64, seconds: u64, millis: u64)
        requires
            old(self).0 + parts_millis(hours, minutes, seconds, millis) * 10000 <= u64::MAX,
        ensures
            final(self).0 == old(self).0 + parts_millis(hours, minutes, seconds, millis) * 10000,
    {
        self.add_millis(Self::parts_to_millis(hours, minutes, seconds, millis))
    }

    fn parts_to_millis(hours: u64, minutes: u64, seconds: u64, millis: u64) -> (r: u64)
        requires
            parts_millis(hours, minutes, seconds, millis) * 10000 <= u64::MAX,
        ensures
            r == parts_millis(hours, minutes, seconds, millis),
    {
        proof {
            assert(0 <= hours * 60 <= (hours * 60 + minutes) * 60 <= ((hours * 60 + minutes) * 60
                + seconds) * 1000 <= parts_millis(hours, minutes, seconds, millis)) by (nonlinear_arith);
        }
        ((hours * 60 + minutes) * 60 + seconds) * 1000 + millis
    }

    /// The play time as `hours:minutes:seconds:milliseconds`, each part
    /// padded with zeros to at least two (three for milliseconds) digits.
    pub fn to_string(&self) -> (r: String)
        ensures
            r@ == file_time_text((self.0 / 10000) as nat),
    {
        let duration = self.as_millis();
        let mut out = padded_text(duration / 3600000, 2);
        push_char(&mut out, ':');
        push_str(&mut out, padded_text((duration / 60000) % 60, 2).as_str());
        push_char(&mut out, ':');
        push_str(&mut out, padded_text((duration / 1000) % 60, 2).as_str());
        push_char(&mut out, ':');
        push_str(&mut out, padded_text(duration % 1000, 3).as_str());
        proof {
            assert(out@ =~= file_time_text((self.0 / 10000) as nat));
        }
        out
    }

    /// The sum of two play times.
    pub fn add(self, rhs: Self) -> (t: Self)
        requires
            self.0 + rhs.0 <= u64::MAX,
        ensures
            t.0 == self.0 + rhs.0,
    {
        FileTime(self.0 + rhs.0)
    }

    /// The difference of two play times.
    pub fn sub(self, rhs: Self) -> (t: Self)
        requires
            self.0 >= rhs.0,
        ensures
            t.0 == self.0 - rhs.0,
    {
        FileTime(self.0 - rhs.0)
    }

    pub fn add_assign(&mut self, rhs: Self)
        requires
            old(self).0 + rhs.0 <= u64::MAX,
        ensures
            final(self).0 == old(self).0 + rhs.0,
    {
        self.0 = self.0 + rhs.0;
    }

    pub fn sub_assign(&mut self, rhs: Self)
        requires
            old(self).0 >= rhs.0,
        ensures
            final(self).0 == old(self).0 - rhs.0,
    {
        self.0 = self.0 - rhs.0;
    }
}

} // verus!
