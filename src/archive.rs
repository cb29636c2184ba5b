//! ArchiveNamer: the keys under which map recordings are archived.
use vstd::prelude::*;
use crate::models::SeriesType;

verus! {

pub open spec fn digit_char(d: nat) -> char {
    if d == 0 { '0' }
    else if d == 1 { '1' }
    else if d == 2 { '2' }
    else if d == 3 { '3' }
    else if d == 4 { '4' }
    else if d == 5 { '5' }
    else if d == 6 { '6' }
    else if d == 7 { '7' }
    else if d == 8 { '8' }
    else { '9' }
}

/// The decimal digits of a number, most significant first, without leading zeros.
pub open spec fn decimal_chars(n: nat) -> Seq<char>
    decreases n,
{
    if n < 10 {
        seq![digit_char(n)]
    } else {
        decimal_chars(n / 10).push(digit_char(n % 10))
    }
}

fn digit_str(d: u64) -> (r: &'static str)
    requires
        d < 10,
    ensures
        r@ == seq![digit_char(d as nat)],
{
    proof {
        reveal_strlit("0");
        reveal_strlit("1");
        reveal_strlit("2");
        reveal_strlit("3");
        reveal_strlit("4");
        reveal_strlit("5");
        reveal_strlit("6");
        reveal_strlit("7");
        reveal_strlit("8");
        reveal_strlit("9");
    }
    let r = if d == 0 { "0" }
    else if d == 1 { "1" }
    else if d == 2 { "2" }
    else if d == 3 { "3" }
    else if d == 4 { "4" }
    else if d == 5 { "5" }
    else if d == 6 { "6" }
    else if d == 7 { "7" }
    else if d == 8 { "8" }
    else { "9" };
    assert(r@ =~= seq![digit_char(d as nat)]);
    r
}

/// Writes a number in decimal.
pub fn decimal_string(n: u64) -> (r: String)
    ensures
        r@ == decimal_chars(n as nat),
    decreases n,
{
    if n < 10 {
        String::from_str(digit_str(n))
    } else {
        let mut s = decimal_string(n / 10);
        s.append(digit_str(n % 10));
        assert(s@ =~= decimal_chars(n as nat));
        s
    }
}

/// The name under which the host stores the recording of a match.
pub open spec fn spec_demo_filename(match_id: Seq<char>) -> Seq<char> {
    match_id + ".dem"@
}

/// The host's file name of a match recording: the match identifier with `.dem`.
pub fn demo_filename(match_id: &str) -> (r: String)
    ensures
        r@ == spec_demo_filename(match_id@),
{
    String::from_str(match_id).concat(".dem")
}

/// The archive key of the `n`-th played map of a series, in a batch of maps.
pub open spec fn spec_series_archive_key(series_external_id: Seq<char>, n: nat) -> Seq<char> {
    series_external_id + "_"@ + decimal_chars(n) + ".dem"@
}

/// `{series_external_id}_{n}.dem`.
pub fn series_archive_key(series_external_id: &str, n: u64) -> (r: String)
    ensures
        r@ == spec_series_archive_key(series_external_id@, n as nat),
{
    let s = String::from_str(series_external_id).concat("_");
    let d = decimal_string(n);
    let s = s.concat(d.as_str());
    s.concat(".dem")
}

/// The 1-based position of a map in its series, from the number of other
/// maps of the series that were still unfinished when it ended.
pub open spec fn spec_map_index(series_type: SeriesType, maps_remaining_before: u32) -> int {
    series_type.spec_total_maps() - maps_remaining_before
}

pub open spec fn spec_name(
    series_type: SeriesType,
    series_external_id: Seq<char>,
    raw_filename: Seq<char>,
    maps_remaining_before: u32,
) -> Seq<char> {
    match series_type {
        SeriesType::Bo1 => raw_filename,
        _ => series_external_id + "_"@ + decimal_chars(
            spec_map_index(series_type, maps_remaining_before) as nat,
        ),
    }
}

/// An index can be given when the format has one map, or when fewer maps
/// remain than the format has.
pub open spec fn name_defined(series_type: SeriesType, maps_remaining_before: u32) -> bool {
    series_type == SeriesType::Bo1 || maps_remaining_before < series_type.spec_total_maps()
}

/// Computes archive keys for map recordings.
pub struct ArchiveNamer;

impl ArchiveNamer {
    /// A single-map series keeps the host's file name; a longer one is keyed
    /// `{series_external_id}_{n}`, `n` being the map's 1-based position
    /// derived from the count of other maps still unfinished before this
    /// one is marked complete.
    pub fn name(
        series_type: SeriesType,
        series_external_id: &str,
        raw_filename: &str,
        maps_remaining_before: u32,
    ) -> (r: String)
        requires
            name_defined(series_type, maps_remaining_before),
        ensures
            r@ == spec_name(series_type, series_external_id@, raw_filename@, maps_remaining_before),
            series_type != SeriesType::Bo1 ==> 1 <= spec_map_index(series_type, maps_remaining_before),
    {
        match series_type {
            SeriesType::Bo1 => String::from_str(raw_filename),
            _ => {
                let n = series_type.total_maps() - maps_remaining_before;
                let s = String::from_str(series_external_id).concat("_");
                let d = decimal_string(n as u64);
                s.concat(d.as_str())
            },
        }
    }
}

} // verus!
