//! The ocean-route schedule: a second deterministic table on the real
//! clock.  Every 2 real hours one of 12 route pairings departs, following a
//! fixed 144-slot repeating pattern (period 12 days) entered at a constant
//! phase offset.

use vstd::prelude::*;

use crate::time::truncate_secs;

verus! {

/// One route cycle: 2 real hours, in real seconds.
pub const ROUTE_CYCLE_SECS: u64 = 7200;

/// The constant phase offset at which the voyage count enters the pattern.
pub const VOYAGE_OFFSET: u64 = 88;

/// The route schedule's full period: 144 cycles of 2 hours, 12 days, in
/// real seconds.
pub const ROUTE_PERIOD_SECS: u64 = 1036800;

/// One of the 12 ocean route pairings: a destination line crossed with a
/// time of day.
#[derive(Clone, Copy, PartialEq, Eq, Structural, Debug, Hash)]
pub enum Route {
    BloodbrineDay,
    RothlytDay,
    MerlthorDay,
    RhotanoDay,
    BloodbrineSunset,
    RothlytSunset,
    MerlthorSunset,
    RhotanoSunset,
    BloodbrineNight,
    RothlytNight,
    MerlthorNight,
    RhotanoNight,
}

/// The time of day a route departs at.
#[derive(Clone, Copy, PartialEq, Eq, Structural, Debug, Hash)]
pub enum TimePeriod {
    Day,
    Sunset,
    Night,
}

/// How desirable a route is to callers deciding whether to notify.
#[derive(Clone, Copy, PartialEq, Eq, Structural, Debug, Hash)]
pub enum RouteTier {
    Best,
    VeryGood,
    Good,
    Bad,
}

/// The 12 routes in their base rotation order.
pub open spec fn route_base(k: int) -> Route
    recommends
        0 <= k < 12,
{
    if k == 0 {
        Route::BloodbrineDay
    } else if k == 1 {
        Route::RothlytDay
    } else if k == 2 {
        Route::MerlthorDay
    } else if k == 3 {
        Route::RhotanoDay
    } else if k == 4 {
        Route::BloodbrineSunset
    } else if k == 5 {
        Route::RothlytSunset
    } else if k == 6 {
        Route::MerlthorSunset
    } else if k == 7 {
        Route::RhotanoSunset
    } else if k == 8 {
        Route::BloodbrineNight
    } else if k == 9 {
        Route::RothlytNight
    } else if k == 10 {
        Route::MerlthorNight
    } else {
        Route::RhotanoNight
    }
}

/// Slot `i` of the 144-slot pattern: 12 rows of the base order, each row
/// rotated one step further left.  The executable table in `route_pattern`
/// is proved equal to this cyclic permutation, slot by slot.
pub open spec fn spec_pattern(i: int) -> Route
    recommends
        0 <= i < 144,
{
    route_base((i % 12 + i / 12) % 12)
}

/// The route departing in the 2-hour window containing real instant
/// `unix_secs`.
pub open spec fn spec_route_at(unix_secs: u64) -> Route {
    spec_pattern(((unix_secs as int) / 7200 + 88) % 144)
}

/// The route schedule is periodic: 12 days (144 cycles of 2 hours) later,
/// the same route departs.
pub proof fn lemma_route_periodic(unix_secs: u64)
    requires
        unix_secs + ROUTE_PERIOD_SECS <= u64::MAX,
    ensures
        spec_route_at(unix_secs) == spec_route_at((unix_secs + ROUTE_PERIOD_SECS) as u64),
{
    let t = unix_secs as int;
    assert((t + 1036800) / 7200 == t / 7200 + 144) by (nonlinear_arith)
        requires
            t >= 0,
    ;
    assert((t / 7200 + 144 + 88) % 144 == (t / 7200 + 88) % 144) by (nonlinear_arith)
        requires
            t >= 0,
    ;
}

/// The fixed 144-slot repeating pattern, reproduced verbatim from the
/// reference data.
fn route_pattern(idx: usize) -> (r: Route)
    requires
        idx < 144,
    ensures
        r == spec_pattern(idx as int),
{
    match idx {
            0 => Route::BloodbrineDay,
            1 => Route::RothlytDay,
            2 => Route::MerlthorDay,
            3 => Route::RhotanoDay,
            4 => Route::BloodbrineSunset,
            5 => Route::RothlytSunset,
            6 => Route::MerlthorSunset,
            7 => Route::RhotanoSunset,
            8 => Route::BloodbrineNight,
            9 => Route::RothlytNight,
            10 => Route::MerlthorNight,
            11 => Route::RhotanoNight,
            12 => Route::RothlytDay,
            13 => Route::MerlthorDay,
            14 => Route::RhotanoDay,
            15 => Route::BloodbrineSunset,
            16 => Route::RothlytSunset,
            17 => Route::MerlthorSunset,
            18 => Route::RhotanoSunset,
            19 => Route::BloodbrineNight,
            20 => Route::RothlytNight,
            21 => Route::MerlthorNight,
            22 => Route::RhotanoNight,
            23 => Route::BloodbrineDay,
            24 => Route::MerlthorDay,
            25 => Route::RhotanoDay,
            26 => Route::BloodbrineSunset,
            27 => Route::RothlytSunset,
            28 => Route::MerlthorSunset,
            29 => Route::RhotanoSunset,
            30 => Route::BloodbrineNight,
            31 => Route::RothlytNight,
            32 => Route::MerlthorNight,
            33 => Route::RhotanoNight,
            34 => Route::BloodbrineDay,
            35 => Route::RothlytDay,
            36 => Route::RhotanoDay,
            37 => Route::BloodbrineSunset,
            38 => Route::RothlytSunset,
            39 => Route::MerlthorSunset,
            40 => Route::RhotanoSunset,
            41 => Route::BloodbrineNight,
            42 => Route::RothlytNight,
            43 => Route::MerlthorNight,
            44 => Route::RhotanoNight,
            45 => Route::BloodbrineDay,
            46 => Route::RothlytDay,
            47 => Route::MerlthorDay,
            48 => Route::BloodbrineSunset,
            49 => Route::RothlytSunset,
            50 => Route::MerlthorSunset,
            51 => Route::RhotanoSunset,
            52 => Route::BloodbrineNight,
            53 => Route::RothlytNight,
            54 => Route::MerlthorNight,
            55 => Route::RhotanoNight,
            56 => Route::BloodbrineDay,
            57 => Route::RothlytDay,
            58 => Route::MerlthorDay,
            59 => Route::RhotanoDay,
            60 => Route::RothlytSunset,
            61 => Route::MerlthorSunset,
            62 => Route::RhotanoSunset,
            63 => Route::BloodbrineNight,
            64 => Route::RothlytNight,
            65 => Route::MerlthorNight,
            66 => Route::RhotanoNight,
            67 => Route::BloodbrineDay,
            68 => Route::RothlytDay,
            69 => Route::MerlthorDay,
            70 => Route::RhotanoDay,
            71 => Route::BloodbrineSunset,
            72 => Route::MerlthorSunset,
            73 => Route::RhotanoSunset,
            74 => Route::BloodbrineNight,
            75 => Route::RothlytNight,
            76 => Route::MerlthorNight,
            77 => Route::RhotanoNight,
            78 => Route::BloodbrineDay,
            79 => Route::RothlytDay,
            80 => Route::MerlthorDay,
            81 => Route::RhotanoDay,
            82 => Route::BloodbrineSunset,
            83 => Route::RothlytSunset,
            84 => Route::RhotanoSunset,
            85 => Route::BloodbrineNight,
            86 => Route::RothlytNight,
            87 => Route::MerlthorNight,
            88 => Route::RhotanoNight,
            89 => Route::BloodbrineDay,
            90 => Route::RothlytDay,
            91 => Route::MerlthorDay,
            92 => Route::RhotanoDay,
            93 => Route::BloodbrineSunset,
            94 => Route::RothlytSunset,
            95 => Route::MerlthorSunset,
            96 => Route::BloodbrineNight,
            97 => Route::RothlytNight,
            98 => Route::MerlthorNight,
            99 => Route::RhotanoNight,
            100 => Route::BloodbrineDay,
            101 => Route::RothlytDay,
            102 => Route::MerlthorDay,
            103 => Route::RhotanoDay,
            104 => Route::BloodbrineSunset,
            105 => Route::RothlytSunset,
            106 => Route::MerlthorSunset,
            107 => Route::RhotanoSunset,
            108 => Route::RothlytNight,
            109 => Route::MerlthorNight,
            110 => Route::RhotanoNight,
            111 => Route::BloodbrineDay,
            112 => Route::RothlytDay,
            113 => Route::MerlthorDay,
            114 => Route::RhotanoDay,
            115 => Route::BloodbrineSunset,
            116 => Route::RothlytSunset,
            117 => Route::MerlthorSunset,
            118 => Route::RhotanoSunset,
            119 => Route::BloodbrineNight,
            120 => Route::MerlthorNight,
            121 => Route::RhotanoNight,
            122 => Route::BloodbrineDay,
            123 => Route::RothlytDay,
            124 => Route::MerlthorDay,
            125 => Route::RhotanoDay,
            126 => Route::BloodbrineSunset,
            127 => Route::RothlytSunset,
            128 => Route::MerlthorSunset,
            129 => Route::RhotanoSunset,
            130 => Route::BloodbrineNight,
            131 => Route::RothlytNight,
            132 => Route::RhotanoNight,
            133 => Route::BloodbrineDay,
            134 => Route::RothlytDay,
            135 => Route::MerlthorDay,
            136 => Route::RhotanoDay,
            137 => Route::BloodbrineSunset,
            138 => Route::RothlytSunset,
            139 => Route::MerlthorSunset,
            140 => Route::RhotanoSunset,
            141 => Route::BloodbrineNight,
            142 => Route::RothlytNight,
            143 => Route::MerlthorNight,
        _ => Route::BloodbrineDay,
    }
}

impl Route {
    /// The route departing in the 2-hour window containing real instant
    /// `unix_secs`: the instant is truncated to its containing window, the
    /// voyage count is offset by the constant phase, and the pattern is
    /// consulted cyclically.
    pub fn from_datetime(unix_secs: u64) -> (r: Route)
        ensures
            r == spec_route_at(unix_secs),
    {
        let floored = truncate_secs(unix_secs, ROUTE_CYCLE_SECS);
        proof {
            assert(floored / 7200 == (unix_secs as int) / 7200) by (nonlinear_arith)
                requires
                    floored == unix_secs - (unix_secs as int) % 7200,
                    unix_secs >= 0,
            ;
        }
        let voyage: u64 = VOYAGE_OFFSET + floored / ROUTE_CYCLE_SECS;
        let idx: usize = (voyage % 144) as usize;
        route_pattern(idx)
    }

    /// The display name of the route pairing.
    pub open spec fn spec_name(self) -> Seq<char> {
        match self {
            Route::BloodbrineDay => "Crab / Seafaring Toad"@,
            Route::RothlytDay => "Fugu / Mantas"@,
            Route::MerlthorDay => "Sothis / Elasmosaurus"@,
            Route::RhotanoDay => "Shark / Coral Manta"@,
            Route::BloodbrineSunset => "Hafgufa / Elasmosaurus"@,
            Route::RothlytSunset => "Hafgufa / Placodus"@,
            Route::MerlthorSunset => "Seadragons / Coral Manta"@,
            Route::RhotanoSunset => "Sothis / Stonescale"@,
            Route::BloodbrineNight => "Mantas"@,
            Route::RothlytNight => "Fugu / Stonescale"@,
            Route::MerlthorNight => "Octopodes"@,
            Route::RhotanoNight => "Jellyfish"@,
        }
    }

    /// The display name of the route pairing.
    pub fn to_name(self) -> (r: &'static str)
        ensures
            r@ == self.spec_name(),
    {
        match self {
            Route::BloodbrineDay => "Crab / Seafaring Toad",
            Route::RothlytDay => "Fugu / Mantas",
            Route::MerlthorDay => "Sothis / Elasmosaurus",
            Route::RhotanoDay => "Shark / Coral Manta",
            Route::BloodbrineSunset => "Hafgufa / Elasmosaurus",
            Route::RothlytSunset => "Hafgufa / Placodus",
            Route::MerlthorSunset => "Seadragons / Coral Manta",
            Route::RhotanoSunset => "Sothis / Stonescale",
            Route::BloodbrineNight => "Mantas",
            Route::RothlytNight => "Fugu / Stonescale",
            Route::MerlthorNight => "Octopodes",
            Route::RhotanoNight => "Jellyfish",
        }
    }

    /// The tier callers use to decide whether a departure is worth a
    /// notification.
    pub open spec fn spec_tier(self) -> RouteTier {
        match self {
            Route::BloodbrineDay => RouteTier::Best,
            Route::RothlytDay => RouteTier::Best,
            Route::RhotanoDay => RouteTier::Best,
            Route::RhotanoNight => RouteTier::Best,
            Route::RothlytSunset => RouteTier::VeryGood,
            Route::MerlthorSunset => RouteTier::VeryGood,
            Route::RothlytNight => RouteTier::VeryGood,
            Route::MerlthorNight => RouteTier::VeryGood,
            Route::BloodbrineNight => RouteTier::Good,
            Route::MerlthorDay => RouteTier::Bad,
            Route::BloodbrineSunset => RouteTier::Bad,
            Route::RhotanoSunset => RouteTier::Bad,
        }
    }

    /// The tier callers use to decide whether a departure is worth a
    /// notification.
    pub fn tier(self) -> (r: RouteTier)
        ensures
            r == self.spec_tier(),
    {
        match self {
            Route::BloodbrineDay => RouteTier::Best,
            Route::RothlytDay => RouteTier::Best,
            Route::RhotanoDay => RouteTier::Best,
            Route::RhotanoNight => RouteTier::Best,
            Route::RothlytSunset => RouteTier::VeryGood,
            Route::MerlthorSunset => RouteTier::VeryGood,
            Route::RothlytNight => RouteTier::VeryGood,
            Route::MerlthorNight => RouteTier::VeryGood,
            Route::BloodbrineNight => RouteTier::Good,
            Route::MerlthorDay => RouteTier::Bad,
            Route::BloodbrineSunset => RouteTier::Bad,
            Route::RhotanoSunset => RouteTier::Bad,
        }
    }

    /// The time of day this route departs at.
    pub open spec fn spec_time_period(self) -> TimePeriod {
        match self {
            Route::BloodbrineDay => TimePeriod::Day,
            Route::RothlytDay => TimePeriod::Day,
            Route::MerlthorDay => TimePeriod::Day,
            Route::RhotanoDay => TimePeriod::Day,
            Route::BloodbrineSunset => TimePeriod::Sunset,
            Route::RothlytSunset => TimePeriod::Sunset,
            Route::MerlthorSunset => TimePeriod::Sunset,
            Route::RhotanoSunset => TimePeriod::Sunset,
            Route::BloodbrineNight => TimePeriod::Night,
            Route::RothlytNight => TimePeriod::Night,
            Route::MerlthorNight => TimePeriod::Night,
            Route::RhotanoNight => TimePeriod::Night,
        }
    }

    /// The time of day this route departs at.
    pub fn time_period(self) -> (r: TimePeriod)
        ensures
            r == self.spec_time_period(),
    {
        match self {
            Route::BloodbrineDay => TimePeriod::Day,
            Route::RothlytDay => TimePeriod::Day,
            Route::MerlthorDay => TimePeriod::Day,
            Route::RhotanoDay => TimePeriod::Day,
            Route::BloodbrineSunset => TimePeriod::Sunset,
            Route::RothlytSunset => TimePeriod::Sunset,
            Route::MerlthorSunset => TimePeriod::Sunset,
            Route::RhotanoSunset => TimePeriod::Sunset,
            Route::BloodbrineNight => TimePeriod::Night,
            Route::RothlytNight => TimePeriod::Night,
            Route::MerlthorNight => TimePeriod::Night,
            Route::RhotanoNight => TimePeriod::Night,
        }
    }
}

} // verus!
