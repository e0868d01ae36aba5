//! The Eorzean clock: a virtual-seconds timestamp at a fixed ratio to real
//! time (3600 virtual seconds pass per 175 real seconds), cycle truncation,
//! and the deterministic weather-rate generator keyed by virtual time.

use vstd::prelude::*;

use crate::time::{spec_truncate, truncate_secs};
use crate::weather::EorzeaWeatherRate;

verus! {

/// Virtual seconds per real second, as a ratio: `VIRTUAL_PER_REAL_NUM`
/// virtual seconds pass in `VIRTUAL_PER_REAL_DEN` real seconds.
pub const VIRTUAL_PER_REAL_NUM: u64 = 3600;

/// See `VIRTUAL_PER_REAL_NUM`.
pub const VIRTUAL_PER_REAL_DEN: u64 = 175;

/// One weather cycle: 8 virtual hours, in virtual seconds.
pub const WEATHER_CYCLE_SECS: u64 = 28800;

/// A date and time on the Eorzean clock: whole virtual seconds since the
/// Unix epoch.
#[derive(Clone, Copy, PartialEq, Eq, Structural, Debug, Hash, PartialOrd, Ord)]
pub struct DateTimeEorzea(pub u64);

/// A real-time instant scaled onto the virtual clock, truncated to whole
/// virtual seconds.
pub open spec fn spec_real_to_virtual(unix_secs: int) -> int {
    unix_secs * 3600 / 175
}

/// A virtual instant scaled back to the real clock, truncated to whole real
/// seconds.  Lossy: the two truncating conversions are not exact inverses.
pub open spec fn spec_virtual_to_real(vs: int) -> int {
    vs * 175 / 3600
}

/// The two xorshift steps of the weather generator, on unsigned 32-bit
/// words with logical shifts.
pub open spec fn xorshift_mix(seed: u32) -> u32 {
    let a = seed ^ (seed << 11u32);
    a ^ (a >> 8u32)
}

/// The generator's day count: whole virtual days, wrapped to 32 bits.
pub open spec fn spec_days32(vs: u64) -> int {
    (vs as int) / 86400 % 0x1_0000_0000
}

/// The generator's hour count: whole virtual hours, wrapped to 32 bits.
pub open spec fn spec_hours32(vs: u64) -> int {
    (vs as int) / 3600 % 0x1_0000_0000
}

/// The generator's cycle offset: the hour count aligned up to the next
/// 8-hour boundary, expressed 0 to 23.
pub open spec fn spec_offset(vs: u64) -> int {
    let h = spec_hours32(vs);
    (h + 8 - h % 8) % 24
}

/// The generator's seed: a base-10 number in the shape DDDDHH, wrapped to
/// unsigned 32-bit width.
pub open spec fn spec_seed(vs: u64) -> u32 {
    ((spec_days32(vs) * 100 + spec_offset(vs)) % 0x1_0000_0000) as u32
}

/// The zone-independent weather-rate index of a virtual instant: the seed
/// run through the xorshift mix, reduced below 100.  Opaque: searches treat
/// the generator as a black box and rely on its contracts alone.
#[verifier::opaque]
pub open spec fn spec_generate(vs: u64) -> usize {
    ((xorshift_mix(spec_seed(vs)) as int) % 100) as usize
}

/// The generator is pure: equal virtual instants yield equal rate indices.
pub proof fn lemma_generate_deterministic(a: u64, b: u64)
    requires
        a == b,
    ensures
        spec_generate(a) == spec_generate(b),
{
}

/// The generator's output always lies in the interval from 0 inclusive to
/// 100 exclusive.
pub proof fn lemma_generate_bounded(vs: u64)
    ensures
        spec_generate(vs) < 100,
{
    reveal(spec_generate);
}

impl DateTimeEorzea {
    /// Wraps a count of virtual seconds as an Eorzean date and time.
    pub fn from_timestamp(timestamp: u64) -> (r: Self)
        ensures
            r.0 == timestamp,
    {
        DateTimeEorzea(timestamp)
    }

    /// The count of virtual seconds since the epoch.
    pub fn timestamp(&self) -> (r: u64)
        ensures
            r == self.0,
    {
        self.0
    }

    /// Scales a real-time Unix timestamp onto the Eorzean clock.  The bound
    /// keeps the scaled value within 64 bits.
    pub fn from_unix(unix_secs: u64) -> (r: Self)
        requires
            unix_secs <= u64::MAX / 3600,
        ensures
            r.0 == spec_real_to_virtual(unix_secs as int),
    {
        DateTimeEorzea(unix_secs * VIRTUAL_PER_REAL_NUM / VIRTUAL_PER_REAL_DEN)
    }

    /// Converts back to a real-time Unix timestamp, truncated to whole real
    /// seconds.  The bound keeps the intermediate product within 64 bits.
    pub fn to_utc(self) -> (r: u64)
        requires
            self.0 <= u64::MAX / 175,
        ensures
            r == spec_virtual_to_real(self.0 as int),
    {
        self.0 * VIRTUAL_PER_REAL_DEN / VIRTUAL_PER_REAL_NUM
    }

    /// Rounds this instant down to the nearest multiple of `cycle` virtual
    /// seconds.
    pub fn truncate(&mut self, cycle: u64)
        requires
            cycle > 0,
        ensures
            final(self).0 == spec_truncate(old(self).0 as int, cycle as int),
            final(self).0 % cycle == 0,
            final(self).0 <= old(self).0,
            old(self).0 - final(self).0 < cycle,
    {
        self.0 = truncate_secs(self.0, cycle);
    }

    /// Rounds down to the nearest multiple of `cycle` virtual seconds,
    /// builder-style.
    pub fn truncated(self, cycle: u64) -> (r: Self)
        requires
            cycle > 0,
        ensures
            r.0 == spec_truncate(self.0 as int, cycle as int),
            r.0 % cycle == 0,
            r.0 <= self.0,
            self.0 - r.0 < cycle,
    {
        DateTimeEorzea(truncate_secs(self.0, cycle))
    }

    /// Moves this instant forward by `secs` virtual seconds.
    pub fn add_secs(self, secs: u64) -> (r: Self)
        requires
            self.0 + secs <= u64::MAX,
        ensures
            r.0 == self.0 + secs,
    {
        DateTimeEorzea(self.0 + secs)
    }

    /// Moves this instant backward by `secs` virtual seconds.
    pub fn sub_secs(self, secs: u64) -> (r: Self)
        requires
            secs <= self.0,
        ensures
            r.0 == self.0 - secs,
    {
        DateTimeEorzea(self.0 - secs)
    }

    /// Finds the current weather-rate index: days and hours of the virtual
    /// clock wrapped to 32 bits, aligned to the containing 8-hour cycle,
    /// mixed by two xorshift steps and reduced below 100.
    pub fn to_weather_rate(self) -> (r: EorzeaWeatherRate)
        ensures
            r.0 == spec_generate(self.0),
            r.0 < 100,
    {
        let vs = self.0;
        let days: u32 = ((vs / 86400) % 0x1_0000_0000) as u32;
        let hours: u32 = ((vs / 3600) % 0x1_0000_0000) as u32;
        let offset: u32 = (((hours as u64) + 8 - ((hours as u64) % 8)) % 24) as u32;
        let seed64: u64 = ((days as u64) * 100 + (offset as u64)) % 0x1_0000_0000;
        let mut seed: u32 = seed64 as u32;
        seed = seed ^ (seed << 11u32);
        seed = seed ^ (seed >> 8u32);
        proof {
            reveal(spec_generate);
        }
        EorzeaWeatherRate((seed % 100) as usize)
    }
}

} // verus!
