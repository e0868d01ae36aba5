//! Zone-aware weather lookup: resolving a zone by name from the reference
//! tables and mapping a zone-independent weather-rate index to the named
//! weather condition it selects.

use vstd::prelude::*;

use crate::data::{
    map_info_find, name_map_get, rate_map_get, MapInfoMap, WeatherName, WeatherNameMap,
    WeatherRate, WeatherRateMap,
};

verus! {

/// Failures caused by missing or corrupt reference data.  None of these is
/// retryable: they indicate the loaded tables cannot answer the query.
#[derive(Clone, Copy, PartialEq, Eq, Structural, Debug)]
pub enum ConfigError {
    /// No zone record carries the requested display name.
    UnknownZone,
    /// The zone's rate sequence cannot answer every rate index below 100.
    InvalidRateTable,
    /// No entry of the zone's rate sequence has a threshold above the index.
    NoMatchingRate,
    /// The selected weather id has no record in the name table.
    MissingWeatherName,
}

/// Zone-independent weather value; an index into a zone's cumulative-rate
/// sequence.
#[derive(Clone, Copy, PartialEq, Eq, Structural, Debug)]
pub struct EorzeaWeatherRate(pub usize);

/// Zone-aware weather value: a weather id together with its English name.
#[derive(Clone, PartialEq, Eq, Debug)]
pub struct EorzeaWeather {
    pub name: String,
    pub id: usize,
}

/// Map and zone info: a zone resolved to its ordered rate sequence.
#[derive(Clone, PartialEq, Eq, Debug)]
pub struct EorzeaMap {
    pub name: String,
    pub id: usize,
    pub weathers: Vec<WeatherRate>,
}

/// The position of the first entry at or after `i` whose cumulative
/// threshold exceeds the rate index `idx`, if any.
pub open spec fn first_rate_slot_from(ws: Seq<WeatherRate>, idx: usize, i: int) -> Option<int>
    decreases ws.len() - i,
{
    if i < 0 || i >= ws.len() {
        None
    } else if idx < ws[i].rate {
        Some(i)
    } else {
        first_rate_slot_from(ws, idx, i + 1)
    }
}

/// The position of the first entry whose threshold exceeds `idx`: the slot
/// the rate index selects in a zone's cumulative-rate sequence.
pub open spec fn first_rate_slot(ws: Seq<WeatherRate>, idx: usize) -> Option<int> {
    first_rate_slot_from(ws, idx, 0)
}

/// A usable rate sequence: non-empty, strictly increasing thresholds, and a
/// final threshold of at least 100 so that every rate index below 100
/// selects a slot.
pub open spec fn rates_wf(ws: Seq<WeatherRate>) -> bool {
    &&& ws.len() > 0
    &&& forall|i: int, j: int| 0 <= i < j < ws.len() ==> ws[i].rate < ws[j].rate
    &&& ws[ws.len() - 1].rate >= 100
}

/// Every weather id that the rate sequence can select has a name record.
pub open spec fn rates_named(ws: Seq<WeatherRate>, names: Seq<(usize, WeatherName)>) -> bool {
    forall|i: int| 0 <= i < ws.len() ==> name_map_get(names, ws[i].weather_id) is Some
}

/// A search starting at `i` succeeds whenever some entry at or after `i`
/// has a threshold above `idx`.
proof fn lemma_slot_from_exists(ws: Seq<WeatherRate>, idx: usize, i: int, w: int)
    requires
        0 <= i <= w < ws.len(),
        idx < ws[w].rate,
    ensures
        first_rate_slot_from(ws, idx, i) is Some,
    decreases w - i,
{
    if i < w && !(idx < ws[i].rate) {
        lemma_slot_from_exists(ws, idx, i + 1, w);
    }
}

/// In a well-formed rate sequence every rate index below 100 selects a slot.
pub proof fn lemma_rates_wf_slot_exists(ws: Seq<WeatherRate>, idx: usize)
    requires
        rates_wf(ws),
        idx < 100,
    ensures
        first_rate_slot(ws, idx) is Some,
{
    lemma_slot_from_exists(ws, idx, 0, ws.len() - 1);
}

/// Whatever slot a search from `i` selects lies in range and has a
/// threshold above `idx`.
pub proof fn lemma_slot_from_in_range(ws: Seq<WeatherRate>, idx: usize, i: int)
    requires
        first_rate_slot_from(ws, idx, i) is Some,
    ensures
        match first_rate_slot_from(ws, idx, i) {
            Some(k) => i <= k < ws.len() && idx < ws[k].rate,
            None => false,
        },
    decreases ws.len() - i,
{
    if !(i < 0 || i >= ws.len()) && !(idx < ws[i].rate) {
        lemma_slot_from_in_range(ws, idx, i + 1);
    }
}

/// The first entry at or after `i` of the name table whose English name
/// reads `name`, if any.
pub open spec fn weather_by_name_from(
    s: Seq<(usize, WeatherName)>,
    name: Seq<char>,
    i: int,
) -> Option<(usize, WeatherName)>
    decreases s.len() - i,
{
    if i < 0 || i >= s.len() {
        None
    } else if s[i].1.name.en@ == name {
        Some(s[i])
    } else {
        weather_by_name_from(s, name, i + 1)
    }
}

/// The first name-table entry whose English name reads `name`, if any.
pub open spec fn weather_by_name(s: Seq<(usize, WeatherName)>, name: Seq<char>) -> Option<
    (usize, WeatherName),
> {
    weather_by_name_from(s, name, 0)
}

impl EorzeaWeather {
    /// Finds a weather from its English name: the first name-table entry
    /// that carries it, or `None` when no entry does.
    pub fn from_name(name: &str, names: &WeatherNameMap) -> (r: Option<EorzeaWeather>)
        ensures
            match r {
                Some(w) => weather_by_name(names.0@, name@) matches Some(entry) && (w.id == entry.0
                    && w.name@ == entry.1.name.en@),
                None => weather_by_name(names.0@, name@) is None,
            },
    {
        let key: String = name.to_owned();
        let n = names.0.len();
        let mut i: usize = 0;
        while i < n
            invariant
                n == names.0@.len(),
                i <= n,
                key@ == name@,
                weather_by_name(names.0@, name@) == weather_by_name_from(names.0@, name@, i as int),
            decreases n - i,
        {
            if names.0[i].1.name.en == key {
                return Some(
                    EorzeaWeather { name: names.0[i].1.name.en.clone(), id: names.0[i].0 },
                );
            }
            i += 1;
        }
        None
    }
}

/// The rate sequence a zone name resolves to: the rate group of the first
/// matching zone record, or the empty sequence when the record exists but
/// its rate group is missing from the rate table.  Meaningful only when the
/// zone record exists.
pub open spec fn resolved_weathers(
    mi: Seq<crate::data::MapInfo>,
    rm: Seq<(usize, Vec<WeatherRate>)>,
    name: Seq<char>,
) -> Seq<WeatherRate> {
    match map_info_find(mi, name) {
        Some(info) => match rate_map_get(rm, info.weather_rate) {
            Some(ws) => ws,
            None => Seq::empty(),
        },
        None => Seq::empty(),
    }
}

/// Copies a rate sequence entry by entry.
fn copy_rates(v: &Vec<WeatherRate>) -> (r: Vec<WeatherRate>)
    ensures
        r@ == v@,
{
    let mut r: Vec<WeatherRate> = Vec::new();
    let n = v.len();
    let mut i: usize = 0;
    while i < n
        invariant
            n == v@.len(),
            i <= n,
            r@ == v@.subrange(0, i as int),
        decreases n - i,
    {
        r.push(v[i]);
        proof {
            assert(r@ =~= v@.subrange(0, i + 1 as int));
        }
        i += 1;
    }
    proof {
        assert(r@ =~= v@);
    }
    r
}

impl EorzeaMap {
    /// Resolves a zone by display name: joins the zone record with its rate
    /// group.  A zone whose rate group is missing resolves with an empty
    /// rate sequence; an unknown name does not resolve at all.
    pub fn from_name(name: &str, map_info: &MapInfoMap, rates: &WeatherRateMap) -> (r: Option<
        EorzeaMap,
    >)
        ensures
            match r {
                Some(zone) => map_info_find(map_info.0@, name@) matches Some(info) && (zone.name@
                    == info.name@ && zone.id == info.id && zone.weathers@ == resolved_weathers(
                    map_info.0@,
                    rates.0@,
                    name@,
                )),
                None => map_info_find(map_info.0@, name@) is None,
            },
    {
        let info = match map_info.find(name) {
            Some(info) => info,
            None => {
                return None;
            },
        };
        let weathers = match rates.get(info.weather_rate) {
            Some(ws) => copy_rates(ws),
            None => Vec::new(),
        };
        Some(EorzeaMap { name: info.name.clone(), id: info.id, weathers })
    }

    /// Maps a rate index to this zone's weather: the first rate entry whose
    /// threshold exceeds the index names the weather.  Fails when the rate
    /// sequence has no such entry (empty or corrupt reference data) or when
    /// the selected weather id has no name record.
    pub fn weather(&self, rate: EorzeaWeatherRate, names: &WeatherNameMap) -> (r: Result<
        EorzeaWeather,
        ConfigError,
    >)
        ensures
            match r {
                Ok(w) => first_rate_slot(self.weathers@, rate.0) matches Some(k) && (w.id
                    == self.weathers@[k].weather_id && (name_map_get(names.0@, w.id) matches Some(
                    rec,
                ) && w.name@ == rec.name.en@)),
                Err(ConfigError::NoMatchingRate) => first_rate_slot(self.weathers@, rate.0)
                    is None,
                Err(ConfigError::MissingWeatherName) => first_rate_slot(self.weathers@, rate.0)
                    matches Some(k) && name_map_get(
                    names.0@,
                    self.weathers@[k].weather_id,
                ) is None,
                Err(_) => false,
            },
    {
        let n = self.weathers.len();
        let mut i: usize = 0;
        while i < n
            invariant
                n == self.weathers@.len(),
                i <= n,
                first_rate_slot(self.weathers@, rate.0) == first_rate_slot_from(
                    self.weathers@,
                    rate.0,
                    i as int,
                ),
            decreases n - i,
        {
            if rate.0 < self.weathers[i].rate {
                let id = self.weathers[i].weather_id;
                return match names.get(id) {
                    Some(rec) => Ok(EorzeaWeather { name: rec.name.en.clone(), id }),
                    None => Err(ConfigError::MissingWeatherName),
                };
            }
            i += 1;
        }
        Err(ConfigError::NoMatchingRate)
    }
}

} // verus!
