//! The counts that the mapper leaves in its stats sidecar, and how they
//! change from one pass to the next.

use serde_json::Value;
use vstd::prelude::*;

use crate::json;
use crate::json::Json;

verus! {

/// Cell, area and multi-output counts of one mapping pass, as JSON numbers.
pub struct Stats {
    pub gates: Value,
    pub area: Value,
    pub mo: Value,
}

/// What [`Stats`] hold.
#[verifier::ext_equal]
pub struct StatsView {
    pub gates: Json,
    pub area: Json,
    pub mo: Json,
}

impl View for Stats {
    type V = StatsView;

    open spec fn view(&self) -> StatsView {
        StatsView {
            gates: json::tree(self.gates),
            area: json::tree(self.area),
            mo: json::tree(self.mo),
        }
    }
}

impl StatsView {
    /// Each count is a finite double.
    pub open spec fn finite(self) -> bool {
        &&& self.gates.double() is Some && json::is_finite(self.gates.double()->0)
        &&& self.area.double() is Some && json::is_finite(self.area.double()->0)
        &&& self.mo.double() is Some && json::is_finite(self.mo.double()->0)
    }
}

/// The counts that a sidecar gives: `gates` and `area` have to be numbers,
/// and `multioutput_gates` counts as zero where it is not one. Each comes out
/// in the form of a double.
pub open spec fn stats_spec(sidecar: Json) -> Option<StatsView> {
    match (sidecar.at("gates"@).double(), sidecar.at("area"@).double()) {
        (Some(gates), Some(area)) => Some(
            StatsView {
                gates: Json::from_bits(gates),
                area: Json::from_bits(area),
                mo: match sidecar.at("multioutput_gates"@).double() {
                    Some(mo) => Json::from_bits(mo),
                    None => Json::from_bits(0),
                },
            },
        ),
        _ => None,
    }
}

/// The counts in a sidecar that has been read as JSON.
pub fn stats_from(v: &Value) -> (r: Option<Stats>)
    ensures
        match r {
            Some(s) => stats_spec(json::tree(*v)) == Some(s@),
            None => stats_spec(json::tree(*v)) is None,
        },
        r matches Some(s) ==> s@.finite(),
{
    let gates: Value = json::as_double(json::get(v, "gates")?)?;
    let area: Value = json::as_double(json::get(v, "area")?)?;
    let mo: Value = match json::get(v, "multioutput_gates") {
        Some(m) => match json::as_double(m) {
            Some(d) => d,
            None => json::double_from(0),
        },
        None => json::double_from(0),
    };
    Some(Stats { gates, area, mo })
}

/// The counts that the text of a sidecar gives.
pub open spec fn parsed_stats(text: Seq<char>) -> Option<StatsView> {
    match json::parsed(text) {
        Some(sidecar) => stats_spec(sidecar),
        None => None,
    }
}

/// The counts in the text of a sidecar: `None` where it is not JSON or does
/// not give them.
pub fn parse_stats(text: &str) -> (r: Option<Stats>)
    ensures
        match r {
            Some(s) => parsed_stats(text@) == Some(s@),
            None => parsed_stats(text@) is None,
        },
        r matches Some(s) ==> s@.finite(),
{
    let v: Value = json::parse(text)?;
    stats_from(&v)
}

/// The double is a zero, of either sign.
pub open spec fn is_zero(bits: u64) -> bool {
    bits == 0 || bits == 0x8000_0000_0000_0000
}

/// There is a relative change from `before`: it is not zero.
pub open spec fn has_pct(before: Json) -> bool {
    before.double() is None || !is_zero(before.double()->0)
}

/// The relative change from `before` in percent. `percent` is the quotient
/// that floating-point arithmetic gives for it; from zero there is none.
pub fn pct(before: &Value, percent: Value) -> (r: Option<Value>)
    ensures
        r == if has_pct(json::tree(*before)) {
            Some(percent)
        } else {
            None
        },
{
    match json::as_bits(before) {
        Some(bits) => if bits == 0 || bits == 0x8000_0000_0000_0000 {
            None
        } else {
            Some(percent)
        },
        None => Some(percent),
    }
}

/// The counts of one pass, as reported.
pub open spec fn stat_tree(s: StatsView) -> Json {
    Json::Object(
        map![
            "cell_count"@ => s.gates,
            "cell_area"@ => s.area,
            "multioutput_gates"@ => s.mo,
        ],
    )
}

/// The counts of one pass, as reported.
pub fn stat_json(s: &Stats) -> (r: Value)
    ensures
        json::tree(r) == stat_tree(s@),
{
    let mut r: Value = json::null();
    json::put(&mut r, "cell_count", json::copy(&s.gates));
    json::put(&mut r, "cell_area", json::copy(&s.area));
    json::put(&mut r, "multioutput_gates", json::copy(&s.mo));
    r
}

/// What floating-point arithmetic gives for a count before and after: the
/// difference, and the difference in percent of the count before. Where a
/// result is no finite number it is null.
pub struct Change {
    pub difference: Value,
    pub percent: Value,
}

/// What a [`Change`] holds.
#[verifier::ext_equal]
pub struct ChangeView {
    pub difference: Json,
    pub percent: Json,
}

impl View for Change {
    type V = ChangeView;

    open spec fn view(&self) -> ChangeView {
        ChangeView {
            difference: json::tree(self.difference),
            percent: json::tree(self.percent),
        }
    }
}

/// A count before and after, as reported. The change in percent is null where
/// the count before is zero.
pub open spec fn delta_tree(before: Json, after: Json, change: ChangeView) -> Json {
    Json::Object(
        map![
            "before"@ => before,
            "after"@ => after,
            "abs"@ => change.difference,
            "pct"@ => if has_pct(before) {
                change.percent
            } else {
                Json::Null
            },
        ],
    )
}

/// A count before and after, as reported.
pub fn delta_json(before: &Value, after: &Value, change: Change) -> (r: Value)
    ensures
        json::tree(r) == delta_tree(json::tree(*before), json::tree(*after), change@),
{
    let mut r: Value = json::null();
    json::put(&mut r, "before", json::copy(before));
    json::put(&mut r, "after", json::copy(after));
    json::put(&mut r, "abs", change.difference);
    let percent: Value = match pct(before, change.percent) {
        Some(p) => p,
        None => json::null(),
    };
    json::put(&mut r, "pct", percent);
    r
}

}
