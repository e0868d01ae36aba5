//! Static reference tables: weather-rate sequences per rate group, zone
//! metadata, and weather display names.  The tables are loaded once by the
//! surrounding application and passed by reference into every component
//! that needs them; nothing here is mutated after construction.

use vstd::prelude::*;

verus! {

/// One cumulative-rate entry of a zone's weather table: a rate index below
/// `rate` (and not matched by an earlier entry) selects `weather_id`.
#[derive(Clone, Copy, PartialEq, Eq, Structural, Debug)]
pub struct WeatherRate {
    pub rate: usize,
    pub weather_id: usize,
}

/// Maps a weather-rate group id to its ordered cumulative-rate sequence.
#[derive(Clone, PartialEq, Eq, Debug)]
pub struct WeatherRateMap(pub Vec<(usize, Vec<WeatherRate>)>);

/// Metadata of one zone: its display name, ids, map scale and the
/// weather-rate group it draws weather from.
#[derive(Clone, PartialEq, Eq, Debug)]
pub struct MapInfo {
    pub name: String,
    pub id: usize,
    pub zone: usize,
    pub territory: usize,
    pub scale: usize,
    pub weather_rate: usize,
}

/// Zone metadata records, searched by display name.
#[derive(Clone, PartialEq, Eq, Debug)]
pub struct MapInfoMap(pub Vec<MapInfo>);

/// Display names of one weather condition in several languages; the core
/// logic only reads the English name.
#[derive(Clone, PartialEq, Eq, Debug)]
pub struct WeatherNameInner {
    pub en: String,
    pub ja: String,
    pub de: String,
    pub fr: String,
}

/// The name record of one weather id.
#[derive(Clone, PartialEq, Eq, Debug)]
pub struct WeatherName {
    pub name: WeatherNameInner,
}

/// Maps a weather id to its name record.
#[derive(Clone, PartialEq, Eq, Debug)]
pub struct WeatherNameMap(pub Vec<(usize, WeatherName)>);

/// The reference tables bundled as one configuration value, constructed
/// once at startup and shared read-only by every query.
#[derive(Clone, PartialEq, Eq, Debug)]
pub struct EorzeaData {
    pub map_info: MapInfoMap,
    pub rates: WeatherRateMap,
    pub names: WeatherNameMap,
}

/// The rate sequence of the first entry at or after position `i` whose key
/// equals `key`, if any.
pub open spec fn rate_map_get_from(
    s: Seq<(usize, Vec<WeatherRate>)>,
    key: usize,
    i: int,
) -> Option<Seq<WeatherRate>>
    decreases s.len() - i,
{
    if i < 0 || i >= s.len() {
        None
    } else if s[i].0 == key {
        Some(s[i].1@)
    } else {
        rate_map_get_from(s, key, i + 1)
    }
}

/// The rate sequence registered under `key`: the first matching entry.
pub open spec fn rate_map_get(s: Seq<(usize, Vec<WeatherRate>)>, key: usize) -> Option<
    Seq<WeatherRate>,
> {
    rate_map_get_from(s, key, 0)
}

impl WeatherRateMap {
    /// Looks up the rate sequence of a weather-rate group id.
    pub fn get(&self, key: usize) -> (r: Option<&Vec<WeatherRate>>)
        ensures
            match r {
                Some(v) => rate_map_get(self.0@, key) == Some(v@),
                None => rate_map_get(self.0@, key) is None,
            },
    {
        let n = self.0.len();
        let mut i: usize = 0;
        while i < n
            invariant
                n == self.0@.len(),
                i <= n,
                rate_map_get(self.0@, key) == rate_map_get_from(self.0@, key, i as int),
            decreases n - i,
        {
            if self.0[i].0 == key {
                return Some(&self.0[i].1);
            }
            i += 1;
        }
        None
    }
}

/// The name record of the first entry at or after position `i` whose key
/// equals `id`, if any.
pub open spec fn name_map_get_from(s: Seq<(usize, WeatherName)>, id: usize, i: int) -> Option<
    WeatherName,
>
    decreases s.len() - i,
{
    if i < 0 || i >= s.len() {
        None
    } else if s[i].0 == id {
        Some(s[i].1)
    } else {
        name_map_get_from(s, id, i + 1)
    }
}

/// The name record registered under weather id `id`.
pub open spec fn name_map_get(s: Seq<(usize, WeatherName)>, id: usize) -> Option<WeatherName> {
    name_map_get_from(s, id, 0)
}

impl WeatherNameMap {
    /// Looks up the name record of a weather id.
    pub fn get(&self, id: usize) -> (r: Option<&WeatherName>)
        ensures
            match r {
                Some(v) => name_map_get(self.0@, id) == Some(*v),
                None => name_map_get(self.0@, id) is None,
            },
    {
        let n = self.0.len();
        let mut i: usize = 0;
        while i < n
            invariant
                n == self.0@.len(),
                i <= n,
                name_map_get(self.0@, id) == name_map_get_from(self.0@, id, i as int),
            decreases n - i,
        {
            if self.0[i].0 == id {
                return Some(&self.0[i].1);
            }
            i += 1;
        }
        None
    }
}

/// The first zone record at or after position `i` whose name reads `name`,
/// if any.
pub open spec fn map_info_find_from(s: Seq<MapInfo>, name: Seq<char>, i: int) -> Option<MapInfo>
    decreases s.len() - i,
{
    if i < 0 || i >= s.len() {
        None
    } else if s[i].name@ == name {
        Some(s[i])
    } else {
        map_info_find_from(s, name, i + 1)
    }
}

/// The zone record whose display name reads `name`: the first match.
pub open spec fn map_info_find(s: Seq<MapInfo>, name: Seq<char>) -> Option<MapInfo> {
    map_info_find_from(s, name, 0)
}

impl MapInfoMap {
    /// Looks up a zone record by display name.
    pub fn find(&self, name: &str) -> (r: Option<&MapInfo>)
        ensures
            match r {
                Some(v) => map_info_find(self.0@, name@) == Some(*v),
                None => map_info_find(self.0@, name@) is None,
            },
    {
        let key: String = name.to_owned();
        let n = self.0.len();
        let mut i: usize = 0;
        while i < n
            invariant
                n == self.0@.len(),
                i <= n,
                key@ == name@,
                map_info_find(self.0@, name@) == map_info_find_from(self.0@, name@, i as int),
            decreases n - i,
        {
            if self.0[i].name == key {
                return Some(&self.0[i]);
            }
            i += 1;
        }
        None
    }
}

} // verus!
