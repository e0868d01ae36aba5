//! Condition searches: scanning the 8-virtual-hour weather cycles of a zone
//! forward or backward for the next or most recent cycle at which a named
//! target condition holds, and for runs of consecutive matching cycles.

use vstd::prelude::*;

use crate::data::{
    map_info_find, name_map_get, EorzeaData, WeatherName, WeatherNameMap, WeatherRate,
};
use crate::datetime_eorzea::{spec_generate, DateTimeEorzea, WEATHER_CYCLE_SECS};
use crate::weather::{
    first_rate_slot, lemma_rates_wf_slot_exists, lemma_slot_from_in_range, rates_named, rates_wf,
    resolved_weathers, ConfigError, EorzeaMap,
};

verus! {

/// Which way a status search walks through the weather cycles.
#[derive(Clone, Copy, PartialEq, Eq, Structural, Debug, Hash)]
pub enum Direction {
    Future,
    Past,
}

impl Direction {
    /// The adjacent cycle in this direction: one 8-virtual-hour step.
    pub fn next(self, dt: DateTimeEorzea) -> (r: DateTimeEorzea)
        requires
            self is Future ==> dt.0 + WEATHER_CYCLE_SECS <= u64::MAX,
            self is Past ==> dt.0 >= WEATHER_CYCLE_SECS,
        ensures
            self is Future ==> r.0 == dt.0 + WEATHER_CYCLE_SECS,
            self is Past ==> r.0 == dt.0 - WEATHER_CYCLE_SECS,
    {
        match self {
            Direction::Future => DateTimeEorzea(dt.0 + WEATHER_CYCLE_SECS),
            Direction::Past => DateTimeEorzea(dt.0 - WEATHER_CYCLE_SECS),
        }
    }
}

/// A named target condition: a predicate over a zone's weather name at a
/// cycle boundary.
#[derive(Clone, Copy, PartialEq, Eq, Structural, Debug, Hash)]
pub enum WeatherCondition {
    /// Fog weather (the Pagos "crab" watch).
    Fog,
    /// Blizzards weather (the Pagos "cassie" and Pyros "skoll" watches).
    Blizzards,
    /// Snow weather (the Hydatos "offensive" run watch).
    Snow,
    /// Any of Snow, Blizzards or Umbral Wind (the Pyros "hotbox" run watch).
    Hotbox,
}

impl WeatherCondition {
    /// Whether a weather with English name `name` satisfies the condition.
    pub open spec fn spec_matches(self, name: Seq<char>) -> bool {
        match self {
            WeatherCondition::Fog => name == "Fog"@,
            WeatherCondition::Blizzards => name == "Blizzards"@,
            WeatherCondition::Snow => name == "Snow"@,
            WeatherCondition::Hotbox => name == "Snow"@ || name == "Blizzards"@ || name
                == "Umbral Wind"@,
        }
    }

    /// Tests a weather name against the condition.
    pub fn matches(&self, name: &String) -> (r: bool)
        ensures
            r == self.spec_matches(name@),
    {
        match self {
            WeatherCondition::Fog => string_eq_lit(name, "Fog"),
            WeatherCondition::Blizzards => string_eq_lit(name, "Blizzards"),
            WeatherCondition::Snow => string_eq_lit(name, "Snow"),
            WeatherCondition::Hotbox => string_eq_lit(name, "Snow") || string_eq_lit(
                name,
                "Blizzards",
            ) || string_eq_lit(name, "Umbral Wind"),
        }
    }
}

/// Compares a string against a literal.
fn string_eq_lit(a: &String, b: &str) -> (r: bool)
    ensures
        r == (a@ == b@),
{
    let owned: String = b.to_owned();
    *a == owned
}

/// A zone's rate sequence can be searched: it answers every rate index the
/// generator produces, and every selectable weather id has a name record.
pub open spec fn search_wf(ws: Seq<WeatherRate>, names: Seq<(usize, WeatherName)>) -> bool {
    rates_wf(ws) && rates_named(ws, names)
}

/// The weather id the zone's rate sequence selects at virtual instant `t`.
pub open spec fn spec_weather_id_at(ws: Seq<WeatherRate>, t: u64) -> usize {
    match first_rate_slot(ws, spec_generate(t)) {
        Some(k) => ws[k].weather_id,
        None => arbitrary(),
    }
}

/// Whether the condition holds of the zone's weather at virtual instant
/// `t`, reading display names from `names`.
pub open spec fn spec_cond_at(
    ws: Seq<WeatherRate>,
    names: Seq<(usize, WeatherName)>,
    cond: WeatherCondition,
    t: u64,
) -> bool {
    match name_map_get(names, spec_weather_id_at(ws, t)) {
        Some(rec) => cond.spec_matches(rec.name.en@),
        None => false,
    }
}

/// Evaluates the condition at one cycle.
fn cond_at(zone: &EorzeaMap, names: &WeatherNameMap, cond: WeatherCondition, t: u64) -> (r: bool)
    requires
        search_wf(zone.weathers@, names.0@),
    ensures
        r == spec_cond_at(zone.weathers@, names.0@, cond, t),
{
    let rate = DateTimeEorzea(t).to_weather_rate();
    proof {
        lemma_rates_wf_slot_exists(zone.weathers@, spec_generate(t));
        lemma_slot_from_in_range(zone.weathers@, spec_generate(t), 0);
    }
    match zone.weather(rate, names) {
        Ok(w) => cond.matches(&w.name),
        Err(_) => false,
    }
}

/// `u` lies on the cycle grid anchored at `start`: at or after it, a whole
/// number of cycles away.
pub open spec fn on_grid(start: u64, u: u64) -> bool {
    u >= start && (u - start) % (WEATHER_CYCLE_SECS as int) == 0
}

/// Two distinct points of the same grid are at least one cycle apart.
proof fn lemma_grid_gap(start: u64, t: u64, u: u64)
    requires
        on_grid(start, t),
        on_grid(start, u),
        u > t,
    ensures
        u - t >= WEATHER_CYCLE_SECS,
{
    let c = WEATHER_CYCLE_SECS as int;
    let a = u - start;
    let b = t - start;
    assert(a - b >= c) by (nonlinear_arith)
        requires
            a % c == 0,
            b % c == 0,
            a > b,
            b >= 0,
            c > 0,
    ;
}

/// Stepping one cycle forward stays on the grid.
proof fn lemma_grid_step(start: u64, t: u64)
    requires
        on_grid(start, t),
        t + WEATHER_CYCLE_SECS <= u64::MAX,
    ensures
        on_grid(start, (t + WEATHER_CYCLE_SECS) as u64),
{
    let c = WEATHER_CYCLE_SECS as int;
    let b = t - start;
    assert((b + c) % c == 0) by (nonlinear_arith)
        requires
            b % c == 0,
            b >= 0,
            c > 0,
    ;
}

/// `t` is the first cycle of the grid anchored at `start` at which the
/// condition holds.
pub open spec fn is_first_match_at_or_after(
    ws: Seq<WeatherRate>,
    names: Seq<(usize, WeatherName)>,
    cond: WeatherCondition,
    start: u64,
    t: u64,
) -> bool {
    &&& on_grid(start, t)
    &&& spec_cond_at(ws, names, cond, t)
    &&& forall|u: u64|
        on_grid(start, u) && u < t ==> !(#[trigger] spec_cond_at(ws, names, cond, u))
}

/// Steps forward one cycle at a time from `start` (inclusive) until the
/// condition holds.  Returns `None` only when no cycle within the
/// representable range matches.
pub fn find_next_condition(
    zone: &EorzeaMap,
    names: &WeatherNameMap,
    cond: WeatherCondition,
    start: DateTimeEorzea,
) -> (r: Option<DateTimeEorzea>)
    requires
        search_wf(zone.weathers@, names.0@),
    ensures
        match r {
            Some(t) => is_first_match_at_or_after(zone.weathers@, names.0@, cond, start.0, t.0),
            None => forall|u: u64|
                on_grid(start.0, u) ==> !(#[trigger] spec_cond_at(zone.weathers@, names.0@, cond, u)),
        },
{
    let ghost ws = zone.weathers@;
    let ghost nm = names.0@;
    let mut t: u64 = start.0;
    loop
        invariant
            search_wf(ws, nm),
            ws == zone.weathers@,
            nm == names.0@,
            on_grid(start.0, t),
            forall|u: u64|
                on_grid(start.0, u) && u < t ==> !(#[trigger] spec_cond_at(ws, nm, cond, u)),
        decreases u64::MAX - t,
    {
        if cond_at(zone, names, cond, t) {
            return Some(DateTimeEorzea(t));
        }
        if t > u64::MAX - WEATHER_CYCLE_SECS {
            proof {
                assert forall|u: u64| on_grid(start.0, u) implies !spec_cond_at(
                    ws,
                    nm,
                    cond,
                    u,
                ) by {
                    if u > t {
                        lemma_grid_gap(start.0, t, u);
                    }
                }
            }
            return None;
        }
        proof {
            lemma_grid_step(start.0, t);
            assert forall|u: u64|
                on_grid(start.0, u) && u < t + WEATHER_CYCLE_SECS implies !spec_cond_at(
                ws,
                nm,
                cond,
                u,
            ) by {
                if u > t {
                    lemma_grid_gap(start.0, t, u);
                }
            }
        }
        t = t + WEATHER_CYCLE_SECS;
    }
}

/// Results of the plain forward scan advance with the start: restarted at
/// any grid point strictly beyond a result, the scan reports a strictly
/// later cycle.
pub proof fn lemma_next_results_advance_with_start(
    ws: Seq<WeatherRate>,
    names: Seq<(usize, WeatherName)>,
    cond: WeatherCondition,
    s1: u64,
    t1: u64,
    s2: u64,
    t2: u64,
)
    requires
        is_first_match_at_or_after(ws, names, cond, s1, t1),
        is_first_match_at_or_after(ws, names, cond, s2, t2),
        s2 > t1,
    ensures
        t2 > t1,
{
}

/// `b` is the end of the run of matching cycles at the start of the grid:
/// the first cycle at which the condition does not hold.  When the
/// condition fails already at the anchor, `b` is the anchor itself.
pub open spec fn is_skip_boundary(
    ws: Seq<WeatherRate>,
    names: Seq<(usize, WeatherName)>,
    cond: WeatherCondition,
    start: u64,
    b: u64,
) -> bool {
    &&& on_grid(start, b)
    &&& !spec_cond_at(ws, names, cond, b)
    &&& forall|u: u64| on_grid(start, u) && u < b ==> #[trigger] spec_cond_at(ws, names, cond, u)
}

/// `t` is the result of the Future search from `start`: the first matching
/// cycle after any run of matching cycles that `start` already sits in.
pub open spec fn is_future_result(
    ws: Seq<WeatherRate>,
    names: Seq<(usize, WeatherName)>,
    cond: WeatherCondition,
    start: u64,
    t: u64,
) -> bool {
    exists|b: u64|
        is_skip_boundary(ws, names, cond, start, b) && is_first_match_at_or_after(
            ws,
            names,
            cond,
            b,
            t,
        )
}

/// The skip boundary of a grid is unique.
proof fn lemma_skip_boundary_unique(
    ws: Seq<WeatherRate>,
    names: Seq<(usize, WeatherName)>,
    cond: WeatherCondition,
    start: u64,
    b1: u64,
    b2: u64,
)
    requires
        is_skip_boundary(ws, names, cond, start, b1),
        is_skip_boundary(ws, names, cond, start, b2),
    ensures
        b1 == b2,
{
}

/// A Future search result lies strictly after the instant the search
/// started from.
pub proof fn lemma_future_result_advances(
    ws: Seq<WeatherRate>,
    names: Seq<(usize, WeatherName)>,
    cond: WeatherCondition,
    start: u64,
    t: u64,
)
    requires
        is_future_result(ws, names, cond, start, t),
    ensures
        t > start,
{
    let b = choose|b: u64|
        is_skip_boundary(ws, names, cond, start, b) && is_first_match_at_or_after(
            ws,
            names,
            cond,
            b,
            t,
        );
    assert(t >= b >= start);
    assert(t != b);
}

/// Repeated Future searches advance strictly: feeding a result back in as
/// the new start yields a strictly later result.
pub proof fn lemma_future_results_strictly_increase(
    ws: Seq<WeatherRate>,
    names: Seq<(usize, WeatherName)>,
    cond: WeatherCondition,
    start: u64,
    t1: u64,
    t2: u64,
)
    requires
        is_future_result(ws, names, cond, start, t1),
        is_future_result(ws, names, cond, t1, t2),
    ensures
        start < t1 < t2,
{
    lemma_future_result_advances(ws, names, cond, start, t1);
    lemma_future_result_advances(ws, names, cond, t1, t2);
}

/// The Future search: first skips forward past any cycle where the
/// condition already holds, then finds the next one where it holds, so a
/// currently active condition is never reported as a future event.
/// Returns `None` only when no qualifying cycle lies within the
/// representable range.
#[verifier::rlimit(100)]
pub fn find_future_condition(
    zone: &EorzeaMap,
    names: &WeatherNameMap,
    cond: WeatherCondition,
    start: DateTimeEorzea,
) -> (r: Option<DateTimeEorzea>)
    requires
        search_wf(zone.weathers@, names.0@),
    ensures
        match r {
            Some(t) => is_future_result(zone.weathers@, names.0@, cond, start.0, t.0) && t.0
                > start.0,
            None => forall|t: u64|
                !is_future_result(zone.weathers@, names.0@, cond, start.0, t),
        },
{
    let ghost ws = zone.weathers@;
    let ghost nm = names.0@;
    let mut b: u64 = start.0;
    let mut matched = cond_at(zone, names, cond, b);
    while matched
        invariant
            search_wf(ws, nm),
            ws == zone.weathers@,
            nm == names.0@,
            on_grid(start.0, b),
            matched == spec_cond_at(ws, nm, cond, b),
            forall|u: u64| on_grid(start.0, u) && u < b ==> #[trigger] spec_cond_at(ws, nm, cond, u),
        decreases u64::MAX - b,
    {
        if b > u64::MAX - WEATHER_CYCLE_SECS {
            proof {
                assert forall|t: u64| !is_future_result(ws, nm, cond, start.0, t) by {
                    if is_future_result(ws, nm, cond, start.0, t) {
                        let b2 = choose|b2: u64|
                            is_skip_boundary(ws, nm, cond, start.0, b2)
                                && is_first_match_at_or_after(ws, nm, cond, b2, t);
                        if b2 > b {
                            lemma_grid_gap(start.0, b, b2);
                        }
                    }
                }
            }
            return None;
        }
        proof {
            lemma_grid_step(start.0, b);
            assert forall|u: u64|
                on_grid(start.0, u) && u < b + WEATHER_CYCLE_SECS implies spec_cond_at(
                ws,
                nm,
                cond,
                u,
            ) by {
                if u > b {
                    lemma_grid_gap(start.0, b, u);
                }
            }
        }
        b = b + WEATHER_CYCLE_SECS;
        matched = cond_at(zone, names, cond, b);
    }
    let ghost bb = b;
    assert(is_skip_boundary(ws, nm, cond, start.0, bb));
    match find_next_condition(zone, names, cond, DateTimeEorzea(b)) {
        Some(t) => {
            proof {
                assert(is_future_result(ws, nm, cond, start.0, t.0));
                lemma_future_result_advances(ws, nm, cond, start.0, t.0);
            }
            Some(t)
        },
        None => {
            proof {
                assert forall|t: u64| !is_future_result(ws, nm, cond, start.0, t) by {
                    if is_future_result(ws, nm, cond, start.0, t) {
                        let b2 = choose|b2: u64|
                            is_skip_boundary(ws, nm, cond, start.0, b2)
                                && is_first_match_at_or_after(ws, nm, cond, b2, t);
                        lemma_skip_boundary_unique(ws, nm, cond, start.0, b2, bb);
                        assert(on_grid(bb, t));
                        assert(spec_cond_at(ws, nm, cond, t));
                        assert(false);
                    }
                }
            }
            None
        },
    }
}

/// `u` lies on the cycle grid anchored at `start`, at or before it.
pub open spec fn on_grid_below(start: u64, u: u64) -> bool {
    u <= start && (start - u) % (WEATHER_CYCLE_SECS as int) == 0
}

/// Two distinct points of the same downward grid are at least one cycle
/// apart.
proof fn lemma_grid_below_gap(start: u64, t: u64, u: u64)
    requires
        on_grid_below(start, t),
        on_grid_below(start, u),
        u < t,
    ensures
        t - u >= WEATHER_CYCLE_SECS,
{
    let c = WEATHER_CYCLE_SECS as int;
    let a = start - u;
    let b = start - t;
    assert(a - b >= c) by (nonlinear_arith)
        requires
            a % c == 0,
            b % c == 0,
            a > b,
            b >= 0,
            c > 0,
    ;
}

/// Stepping one cycle backward stays on the downward grid.
proof fn lemma_grid_below_step(start: u64, t: u64)
    requires
        on_grid_below(start, t),
        t >= WEATHER_CYCLE_SECS,
    ensures
        on_grid_below(start, (t - WEATHER_CYCLE_SECS) as u64),
{
    let c = WEATHER_CYCLE_SECS as int;
    let b = start - t;
    assert((b + c) % c == 0) by (nonlinear_arith)
        requires
            b % c == 0,
            b >= 0,
            c > 0,
    ;
}

/// `t` is the most recent cycle at or before `start` at which the
/// condition holds.
pub open spec fn is_last_match_at_or_before(
    ws: Seq<WeatherRate>,
    names: Seq<(usize, WeatherName)>,
    cond: WeatherCondition,
    start: u64,
    t: u64,
) -> bool {
    &&& on_grid_below(start, t)
    &&& spec_cond_at(ws, names, cond, t)
    &&& forall|u: u64|
        on_grid_below(start, u) && u > t ==> !(#[trigger] spec_cond_at(ws, names, cond, u))
}

/// The Past search: steps backward one cycle at a time from `start`
/// (inclusive) until the condition holds, so a currently active condition
/// is reported as the most recent occurrence.  Returns `None` only when no
/// cycle between the epoch and `start` matches.
pub fn find_past_condition(
    zone: &EorzeaMap,
    names: &WeatherNameMap,
    cond: WeatherCondition,
    start: DateTimeEorzea,
) -> (r: Option<DateTimeEorzea>)
    requires
        search_wf(zone.weathers@, names.0@),
    ensures
        match r {
            Some(t) => is_last_match_at_or_before(zone.weathers@, names.0@, cond, start.0, t.0),
            None => forall|u: u64|
                on_grid_below(start.0, u) ==> !(#[trigger] spec_cond_at(
                    zone.weathers@,
                    names.0@,
                    cond,
                    u,
                )),
        },
{
    let ghost ws = zone.weathers@;
    let ghost nm = names.0@;
    let mut t: u64 = start.0;
    loop
        invariant
            search_wf(ws, nm),
            ws == zone.weathers@,
            nm == names.0@,
            on_grid_below(start.0, t),
            forall|u: u64|
                on_grid_below(start.0, u) && u > t ==> !(#[trigger] spec_cond_at(ws, nm, cond, u)),
        decreases t,
    {
        if cond_at(zone, names, cond, t) {
            return Some(DateTimeEorzea(t));
        }
        if t < WEATHER_CYCLE_SECS {
            proof {
                assert forall|u: u64| on_grid_below(start.0, u) implies !spec_cond_at(
                    ws,
                    nm,
                    cond,
                    u,
                ) by {
                    if u < t {
                        lemma_grid_below_gap(start.0, t, u);
                    }
                }
            }
            return None;
        }
        proof {
            lemma_grid_below_step(start.0, t);
            assert forall|u: u64|
                on_grid_below(start.0, u) && u > t - WEATHER_CYCLE_SECS implies !spec_cond_at(
                ws,
                nm,
                cond,
                u,
            ) by {
                if u < t {
                    lemma_grid_below_gap(start.0, t, u);
                }
            }
        }
        t = t - WEATHER_CYCLE_SECS;
    }
}

/// The instant `i` whole cycles after `t`.
pub open spec fn cycles_after(t: u64, i: int) -> int {
    t + i * WEATHER_CYCLE_SECS
}

/// The condition begins a run of at least two cycles at `t`: it fails one
/// cycle earlier, and holds at `t` and at the following cycle.
pub open spec fn is_run_start(
    ws: Seq<WeatherRate>,
    names: Seq<(usize, WeatherName)>,
    cond: WeatherCondition,
    t: u64,
) -> bool {
    &&& t >= WEATHER_CYCLE_SECS
    &&& !spec_cond_at(ws, names, cond, (t - WEATHER_CYCLE_SECS) as u64)
    &&& spec_cond_at(ws, names, cond, t)
    &&& t + WEATHER_CYCLE_SECS <= u64::MAX
    &&& spec_cond_at(ws, names, cond, (t + WEATHER_CYCLE_SECS) as u64)
}

/// `(t, count)` is the result of the run search from `start`: `t` is the
/// first cycle strictly after `start` at which a run of at least two
/// matching cycles begins, and `count` is that run's full length.
pub open spec fn is_run_result(
    ws: Seq<WeatherRate>,
    names: Seq<(usize, WeatherName)>,
    cond: WeatherCondition,
    start: u64,
    t: u64,
    count: u64,
) -> bool {
    &&& on_grid(start, t)
    &&& t > start
    &&& is_run_start(ws, names, cond, t)
    &&& forall|u: u64|
        on_grid(start, u) && start < u < t ==> !(#[trigger] is_run_start(ws, names, cond, u))
    &&& count >= 2
    &&& forall|i: int|
        0 <= i < count ==> #[trigger] cycles_after(t, i) <= u64::MAX && spec_cond_at(
            ws,
            names,
            cond,
            cycles_after(t, i) as u64,
        )
    &&& (cycles_after(t, count as int) > u64::MAX || !spec_cond_at(
        ws,
        names,
        cond,
        cycles_after(t, count as int) as u64,
    ))
}

/// A run search never reports a run of length one: single-cycle
/// occurrences are skipped, so a reported run spans at least two cycles,
/// both matching.
pub proof fn lemma_run_never_length_one(
    ws: Seq<WeatherRate>,
    names: Seq<(usize, WeatherName)>,
    cond: WeatherCondition,
    start: u64,
    t: u64,
    count: u64,
)
    requires
        is_run_result(ws, names, cond, start, t, count),
    ensures
        count >= 2,
        spec_cond_at(ws, names, cond, t),
        spec_cond_at(ws, names, cond, (t + WEATHER_CYCLE_SECS) as u64),
{
}

/// Counts the consecutive matching cycles of the run that begins at `t`.
fn count_run(zone: &EorzeaMap, names: &WeatherNameMap, cond: WeatherCondition, t: u64) -> (count:
    u64)
    requires
        search_wf(zone.weathers@, names.0@),
        t + WEATHER_CYCLE_SECS <= u64::MAX,
        spec_cond_at(zone.weathers@, names.0@, cond, t),
        spec_cond_at(zone.weathers@, names.0@, cond, (t + WEATHER_CYCLE_SECS) as u64),
    ensures
        count >= 2,
        forall|i: int|
            0 <= i < count ==> #[trigger] cycles_after(t, i) <= u64::MAX && spec_cond_at(
                zone.weathers@,
                names.0@,
                cond,
                cycles_after(t, i) as u64,
            ),
        cycles_after(t, count as int) > u64::MAX || !spec_cond_at(
            zone.weathers@,
            names.0@,
            cond,
            cycles_after(t, count as int) as u64,
        ),
{
    let ghost ws = zone.weathers@;
    let ghost nm = names.0@;
    let mut count: u64 = 2;
    let mut v: u64 = t + WEATHER_CYCLE_SECS;
    loop
        invariant
            search_wf(ws, nm),
            ws == zone.weathers@,
            nm == names.0@,
            count >= 2,
            v == t + (count - 1) * WEATHER_CYCLE_SECS,
            forall|i: int|
                0 <= i < count ==> #[trigger] cycles_after(t, i) <= u64::MAX && spec_cond_at(
                    ws,
                    nm,
                    cond,
                    cycles_after(t, i) as u64,
                ),
        decreases u64::MAX - v,
    {
        if v > u64::MAX - WEATHER_CYCLE_SECS {
            return count;
        }
        if !cond_at(zone, names, cond, v + WEATHER_CYCLE_SECS) {
            return count;
        }
        proof {
            assert(count < u64::MAX) by (nonlinear_arith)
                requires
                    v == t + (count - 1) * (WEATHER_CYCLE_SECS as int),
                    v <= u64::MAX,
                    t >= 0,
                    count >= 2,
                    WEATHER_CYCLE_SECS == 28800,
            ;
        }
        count = count + 1;
        v = v + WEATHER_CYCLE_SECS;
    }
}

/// The run search: finds the first cycle strictly after `start` at which
/// the condition begins a run of at least two consecutive cycles, skipping
/// single-cycle occurrences, and reports that run's start and length.
/// Returns `None` only when no such run lies within the representable
/// range.
#[verifier::rlimit(100)]
pub fn find_condition_run(
    zone: &EorzeaMap,
    names: &WeatherNameMap,
    cond: WeatherCondition,
    start: DateTimeEorzea,
) -> (r: Option<(DateTimeEorzea, u64)>)
    requires
        search_wf(zone.weathers@, names.0@),
    ensures
        match r {
            Some(p) => is_run_result(zone.weathers@, names.0@, cond, start.0, p.0.0, p.1),
            None => forall|u: u64|
                on_grid(start.0, u) && u > start.0 ==> !(#[trigger] is_run_start(
                    zone.weathers@,
                    names.0@,
                    cond,
                    u,
                )),
        },
{
    let ghost ws = zone.weathers@;
    let ghost nm = names.0@;
    if start.0 > u64::MAX - WEATHER_CYCLE_SECS {
        proof {
            assert forall|u: u64| on_grid(start.0, u) && u > start.0 implies !is_run_start(
                ws,
                nm,
                cond,
                u,
            ) by {
                lemma_grid_gap(start.0, start.0, u);
            }
        }
        return None;
    }
    let mut prev = cond_at(zone, names, cond, start.0);
    let mut u: u64 = start.0 + WEATHER_CYCLE_SECS;
    proof {
        lemma_grid_step(start.0, start.0);
    }
    loop
        invariant
            search_wf(ws, nm),
            ws == zone.weathers@,
            nm == names.0@,
            on_grid(start.0, u),
            u > start.0,
            u >= WEATHER_CYCLE_SECS,
            prev == spec_cond_at(ws, nm, cond, (u - WEATHER_CYCLE_SECS) as u64),
            forall|v: u64|
                on_grid(start.0, v) && start.0 < v < u ==> !(#[trigger] is_run_start(ws, nm, cond, v)),
        decreases u64::MAX - u,
    {
        let cur = cond_at(zone, names, cond, u);
        if u > u64::MAX - WEATHER_CYCLE_SECS {
            proof {
                assert forall|v: u64|
                    on_grid(start.0, v) && v > start.0 implies !is_run_start(ws, nm, cond, v) by {
                    if v > u {
                        lemma_grid_gap(start.0, u, v);
                    }
                }
            }
            return None;
        }
        let next = cond_at(zone, names, cond, u + WEATHER_CYCLE_SECS);
        if !prev && cur && next {
            let count = count_run(zone, names, cond, u);
            return Some((DateTimeEorzea(u), count));
        }
        proof {
            assert(!is_run_start(ws, nm, cond, u));
            lemma_grid_step(start.0, u);
            assert forall|v: u64|
                on_grid(start.0, v) && start.0 < v < u + WEATHER_CYCLE_SECS implies !is_run_start(
                ws,
                nm,
                cond,
                v,
            ) by {
                if v > u {
                    lemma_grid_gap(start.0, u, v);
                }
            }
        }
        prev = cur;
        u = u + WEATHER_CYCLE_SECS;
    }
}

/// Checks executably that a resolved zone can be searched against the name
/// table: non-empty strictly increasing rates reaching 100, every
/// selectable weather id named.
fn check_search_wf(zone: &EorzeaMap, names: &WeatherNameMap) -> (r: bool)
    ensures
        r == search_wf(zone.weathers@, names.0@),
{
    let n = zone.weathers.len();
    if n == 0 {
        return false;
    }
    if zone.weathers[n - 1].rate < 100 {
        return false;
    }
    let mut i: usize = 1;
    while i < n
        invariant
            1 <= i <= n,
            n == zone.weathers@.len(),
            forall|a: int, b: int|
                0 <= a < b < i ==> zone.weathers@[a].rate < zone.weathers@[b].rate,
        decreases n - i,
    {
        if zone.weathers[i - 1].rate >= zone.weathers[i].rate {
            return false;
        }
        i += 1;
    }
    let mut j: usize = 0;
    while j < n
        invariant
            j <= n,
            n == zone.weathers@.len(),
            forall|k: int|
                0 <= k < j ==> name_map_get(names.0@, zone.weathers@[k].weather_id) is Some,
        decreases n - j,
    {
        if names.get(zone.weathers[j].weather_id).is_none() {
            return false;
        }
        j += 1;
    }
    true
}

/// What a directional status search promises: either a configuration error
/// naming exactly what is wrong with the reference data for `zone`, or the
/// search result over the zone's resolved rate sequence.
pub open spec fn status_result(
    data: EorzeaData,
    zone: Seq<char>,
    cond: WeatherCondition,
    now: u64,
    direction: Direction,
    r: Result<Option<DateTimeEorzea>, ConfigError>,
) -> bool {
    let ws = resolved_weathers(data.map_info.0@, data.rates.0@, zone);
    let nm = data.names.0@;
    match r {
        Result::Err(e) => match e {
            ConfigError::UnknownZone => map_info_find(data.map_info.0@, zone) is None,
            ConfigError::InvalidRateTable => map_info_find(data.map_info.0@, zone) is Some
                && !search_wf(ws, nm),
            _ => false,
        },
        Result::Ok(o) => {
            &&& map_info_find(data.map_info.0@, zone) is Some
            &&& search_wf(ws, nm)
            &&& match o {
                Some(t) => if direction is Future {
                    is_future_result(ws, nm, cond, now, t.0) && t.0 > now
                } else {
                    is_last_match_at_or_before(ws, nm, cond, now, t.0)
                },
                None => if direction is Future {
                    forall|t: u64| !is_future_result(ws, nm, cond, now, t)
                } else {
                    forall|u: u64|
                        on_grid_below(now, u) ==> !(#[trigger] spec_cond_at(ws, nm, cond, u))
                },
            }
        },
    }
}

/// What a run status search promises, in the same shape as
/// `status_result`.
pub open spec fn run_status_result(
    data: EorzeaData,
    zone: Seq<char>,
    cond: WeatherCondition,
    now: u64,
    r: Result<Option<(DateTimeEorzea, u64)>, ConfigError>,
) -> bool {
    let ws = resolved_weathers(data.map_info.0@, data.rates.0@, zone);
    let nm = data.names.0@;
    match r {
        Result::Err(e) => match e {
            ConfigError::UnknownZone => map_info_find(data.map_info.0@, zone) is None,
            ConfigError::InvalidRateTable => map_info_find(data.map_info.0@, zone) is Some
                && !search_wf(ws, nm),
            _ => false,
        },
        Result::Ok(o) => {
            &&& map_info_find(data.map_info.0@, zone) is Some
            &&& search_wf(ws, nm)
            &&& match o {
                Some(p) => is_run_result(ws, nm, cond, now, p.0.0, p.1),
                None => forall|u: u64|
                    on_grid(now, u) && u > now ==> !(#[trigger] is_run_start(ws, nm, cond, u)),
            }
        },
    }
}

/// Searches the weather cycles of the named zone for `cond` in the given
/// direction.  Fails exactly when the zone name does not resolve or the
/// resolved reference data cannot be searched.
pub fn condition_status(
    data: &EorzeaData,
    zone_name: &str,
    cond: WeatherCondition,
    now: DateTimeEorzea,
    direction: Direction,
) -> (r: Result<Option<DateTimeEorzea>, ConfigError>)
    ensures
        status_result(*data, zone_name@, cond, now.0, direction, r),
{
    let zone = match EorzeaMap::from_name(zone_name, &data.map_info, &data.rates) {
        Some(z) => z,
        None => {
            return Err(ConfigError::UnknownZone);
        },
    };
    if !check_search_wf(&zone, &data.names) {
        return Err(ConfigError::InvalidRateTable);
    }
    match direction {
        Direction::Future => Ok(find_future_condition(&zone, &data.names, cond, now)),
        Direction::Past => Ok(find_past_condition(&zone, &data.names, cond, now)),
    }
}

/// Searches the weather cycles of the named zone for the next run of at
/// least two consecutive cycles matching `cond`.  Fails exactly when the
/// zone name does not resolve or the resolved reference data cannot be
/// searched.
pub fn run_status(
    data: &EorzeaData,
    zone_name: &str,
    cond: WeatherCondition,
    now: DateTimeEorzea,
) -> (r: Result<Option<(DateTimeEorzea, u64)>, ConfigError>)
    ensures
        run_status_result(*data, zone_name@, cond, now.0, r),
{
    let zone = match EorzeaMap::from_name(zone_name, &data.map_info, &data.rates) {
        Some(z) => z,
        None => {
            return Err(ConfigError::UnknownZone);
        },
    };
    if !check_search_wf(&zone, &data.names) {
        return Err(ConfigError::InvalidRateTable);
    }
    Ok(find_condition_run(&zone, &data.names, cond, now))
}

/// The Pagos "crab" (speed belt) watch: Fog weather in Eureka Pagos.
pub fn crab_status(data: &EorzeaData, now: DateTimeEorzea, direction: Direction) -> (r: Result<
    Option<DateTimeEorzea>,
    ConfigError,
>)
    ensures
        status_result(*data, "Eureka Pagos"@, WeatherCondition::Fog, now.0, direction, r),
{
    condition_status(data, "Eureka Pagos", WeatherCondition::Fog, now, direction)
}

/// The Pagos "cassie" (cassie's earring) watch: Blizzards weather in
/// Eureka Pagos.
pub fn cassie_status(data: &EorzeaData, now: DateTimeEorzea, direction: Direction) -> (r: Result<
    Option<DateTimeEorzea>,
    ConfigError,
>)
    ensures
        status_result(*data, "Eureka Pagos"@, WeatherCondition::Blizzards, now.0, direction, r),
{
    condition_status(data, "Eureka Pagos", WeatherCondition::Blizzards, now, direction)
}

/// The Pyros "skoll" (skoll's claw) watch: Blizzards weather in Eureka
/// Pyros.
pub fn skoll_status(data: &EorzeaData, now: DateTimeEorzea, direction: Direction) -> (r: Result<
    Option<DateTimeEorzea>,
    ConfigError,
>)
    ensures
        status_result(*data, "Eureka Pyros"@, WeatherCondition::Blizzards, now.0, direction, r),
{
    condition_status(data, "Eureka Pyros", WeatherCondition::Blizzards, now, direction)
}

/// The Pyros "hotbox" watch: the next run of at least two consecutive
/// cycles of Snow, Blizzards or Umbral Wind in Eureka Pyros.
pub fn hotbox_status(data: &EorzeaData, now: DateTimeEorzea) -> (r: Result<
    Option<(DateTimeEorzea, u64)>,
    ConfigError,
>)
    ensures
        run_status_result(*data, "Eureka Pyros"@, WeatherCondition::Hotbox, now.0, r),
{
    run_status(data, "Eureka Pyros", WeatherCondition::Hotbox, now)
}

/// The Hydatos "offensive" watch: the next run of at least two consecutive
/// cycles of Snow weather in Eureka Hydatos.
pub fn offensive_status(data: &EorzeaData, now: DateTimeEorzea) -> (r: Result<
    Option<(DateTimeEorzea, u64)>,
    ConfigError,
>)
    ensures
        run_status_result(*data, "Eureka Hydatos"@, WeatherCondition::Snow, now.0, r),
{
    run_status(data, "Eureka Hydatos", WeatherCondition::Snow, now)
}

/// The notify decision of the watch loop: a Future status is worth an
/// advance warning exactly when the condition arrives with the very next
/// cycle.
pub fn status_is_next_cycle(status: &Option<DateTimeEorzea>, now: DateTimeEorzea) -> (r: bool)
    requires
        now.0 + WEATHER_CYCLE_SECS <= u64::MAX,
    ensures
        r == (status matches Some(t) && t.0 == now.0 + WEATHER_CYCLE_SECS),
{
    match status {
        Some(t) => t.0 == now.0 + WEATHER_CYCLE_SECS,
        None => false,
    }
}

} // verus!
