//! Battery detection: the decision over the states that the power sources
//! report.

use vstd::prelude::*;

verus! {

/// The state string that a power source reports while it runs on battery.
pub const BATTERY_POWER: &'static str = "Battery Power";

/// A source state that says "Battery Power".
pub open spec fn is_battery(state: Option<String>) -> bool {
    match state {
        Some(s) => s@ == BATTERY_POWER@,
        None => false,
    }
}

/// Some source reports running on battery power.
pub open spec fn reports_battery(states: Seq<Option<String>>) -> bool {
    exists|i: int| 0 <= i < states.len() && is_battery(#[trigger] states[i])
}

/// The machine counts as on battery exactly when some source, at any
/// position in the list, reports the state "Battery Power"; so joining two
/// lists of sources gives "on battery" iff either list does, and a source on
/// battery is found wherever it stands.
pub proof fn lemma_battery_anywhere(a: Seq<Option<String>>, b: Seq<Option<String>>)
    ensures
        reports_battery(a) <==> exists|i: int| 0 <= i < a.len()
            && (#[trigger] a[i] matches Some(st) && st@ == "Battery Power"@),
        reports_battery(a + b) <==> (reports_battery(a) || reports_battery(b)),
        a.len() == 0 ==> !reports_battery(a),
{
    if reports_battery(a + b) {
        let i = choose|i: int| 0 <= i < (a + b).len() && is_battery(#[trigger] (a + b)[i]);
        if i < a.len() {
            assert(a[i] == (a + b)[i]);
        } else {
            assert(b[i - a.len()] == (a + b)[i]);
        }
    }
    if reports_battery(a) {
        let i = choose|i: int| 0 <= i < a.len() && is_battery(#[trigger] a[i]);
        assert((a + b)[i] == a[i]);
    }
    if reports_battery(b) {
        let i = choose|i: int| 0 <= i < b.len() && is_battery(#[trigger] b[i]);
        assert((a + b)[a.len() + i] == b[i]);
    }
    if exists|i: int| 0 <= i < a.len() && (#[trigger] a[i] matches Some(st) && st@ == "Battery Power"@) {
        let i = choose|i: int| 0 <= i < a.len() && (#[trigger] a[i] matches Some(st) && st@ == "Battery Power"@);
        assert(is_battery(a[i]));
    }
}

/// The state of one source is "Battery Power".
pub fn is_battery_state(state: &String) -> (r: bool)
    ensures
        r == (state@ == BATTERY_POWER@),
{
    let battery = BATTERY_POWER.to_owned();
    *state == battery
}

/// Given the "Power Source State" of each power source (`None` where a source
/// has no description or no state), is the machine running on battery? True
/// iff at least one source reports "Battery Power"; no sources, or none on
/// battery, gives `false`.
pub fn on_battery_from_states(states: &Vec<Option<String>>) -> (r: bool)
    ensures
        r == reports_battery(states@),
{
    let mut i: usize = 0;
    while i < states.len()
        invariant
            i <= states@.len(),
            forall|j: int| 0 <= j < i ==> !is_battery(#[trigger] states@[j]),
        decreases states@.len() - i,
    {
        match &states[i] {
            Some(state) => {
                if is_battery_state(state) {
                    assert(is_battery(states@[i as int]));
                    return true;
                }
            },
            None => {},
        }
        i = i + 1;
    }
    false
}

} // verus!
