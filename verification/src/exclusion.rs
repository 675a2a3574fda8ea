//! Per-app exclusion: the overlay hides while the frontmost application's
//! bundle identifier is on the user's allowlist.

use vstd::prelude::*;

verus! {

/// The suppression rule: an identifiable frontmost app that is on the list.
pub open spec fn suppressed(frontmost: Option<Seq<char>>, allowlist: Seq<Seq<char>>) -> bool {
    match frontmost {
        Some(id) => allowlist.contains(id),
        None => false,
    }
}

/// The view of an optional string slice.
pub open spec fn opt_view(o: Option<&str>) -> Option<Seq<char>> {
    match o {
        Some(s) => Some(s@),
        None => None,
    }
}

/// The views of a list of strings.
pub open spec fn views(list: Seq<String>) -> Seq<Seq<char>> {
    list.map_values(|s: String| s@)
}

/// Without an identifiable frontmost app, or with an empty allowlist, the
/// overlay is never suppressed; an app on the list always suppresses it.
pub proof fn lemma_suppression_cases(frontmost: Option<Seq<char>>, allowlist: Seq<Seq<char>>)
    ensures
        frontmost is None ==> !suppressed(frontmost, allowlist),
        allowlist.len() == 0 ==> !suppressed(frontmost, allowlist),
        frontmost matches Some(id) ==> (suppressed(frontmost, allowlist) <==> exists|i: int| 0 <= i < allowlist.len() && allowlist[i] == id),
{
}

/// The list's views keep every entry, in order, and the frontmost app's id
/// is taken as it is.
pub proof fn lemma_views_keep_entries(list: Seq<String>, id: &str)
    ensures
        opt_view(Some(id)) == Some(id@),
        opt_view(None) is None,
        views(list).len() == list.len(),
        forall|i: int| 0 <= i < list.len() ==> #[trigger] views(list)[i] == list[i]@,
{
}

/// Should the overlay be suppressed given the frontmost app's bundle id and the
/// user's exclusion allowlist? `None` (no identifiable frontmost app) never
/// suppresses.
pub fn should_suppress(frontmost_bundle_id: Option<&str>, allowlist: &[String]) -> (r: bool)
    ensures
        r == suppressed(opt_view(frontmost_bundle_id), views(allowlist@)),
{
    match frontmost_bundle_id {
        Some(id) => {
            let wanted = id.to_owned();
            let mut i: usize = 0;
            while i < allowlist.len()
                invariant
                    i <= allowlist@.len(),
                    wanted@ == id@,
                    frontmost_bundle_id == Some(id),
                    forall|j: int| 0 <= j < i ==> allowlist@[j]@ != id@,
                decreases allowlist@.len() - i,
            {
                if allowlist[i] == wanted {
                    assert(views(allowlist@)[i as int] == id@);
                    assert(views(allowlist@).contains(id@));
                    return true;
                }
                i = i + 1;
            }
            assert(!views(allowlist@).contains(id@)) by {
                if views(allowlist@).contains(id@) {
                    let k = choose|k: int| 0 <= k < views(allowlist@).len() && views(allowlist@)[k] == id@;
                    assert(allowlist@[k]@ == id@);
                }
            }
            false
        },
        None => false,
    }
}

} // verus!
