//! Where the backing source lies: an override, else the first of a few
//! fixed places that holds a file, else a file in the current directory.

use crate::record::names_of;
use crate::text::{first_index_of, lemma_first_index_is};
use vstd::prelude::*;

verus! {

/// The name of the environment variable that overrides the place of the
/// source.
pub const OVERRIDE_VARIABLE: &'static str = "REMINDERS_FILE";

/// The name of the file that holds the reminders, which is also its place in
/// the current directory.
pub const SOURCE_NAME: &'static str = "work_reminders.json";

/// The file in the current directory, written with a dot.
pub const DOTTED_SOURCE: &'static str = "./work_reminders.json";

/// The place that an earlier installation used.
pub const LEGACY_SOURCE: &'static str = "/home/bradleydsmith/work_reminders.json";

/// The places that are tried in turn: the current directory, the same
/// written with a dot, the home directory, and a place that an earlier
/// installation used. Without a home directory the third place is empty.
pub open spec fn candidate_places(home_place: Option<Seq<char>>) -> Seq<Seq<char>> {
    seq![
        SOURCE_NAME@,
        DOTTED_SOURCE@,
        match home_place {
            Some(place) => place,
            None => Seq::empty(),
        },
        LEGACY_SOURCE@,
    ]
}

/// The place of the source. An override settles it. Otherwise it is the
/// first candidate that is marked present; `present` marks the candidates in
/// their order, and a candidate without a mark counts as absent. With no
/// candidate present it is the file in the current directory.
pub open spec fn chosen_place(
    override_place: Option<Seq<char>>,
    candidates: Seq<Seq<char>>,
    present: Seq<bool>,
) -> Seq<char> {
    match override_place {
        Some(place) => place,
        None => {
            let marked = if present.len() < candidates.len() {
                present
            } else {
                present.take(candidates.len() as int)
            };
            let at = first_index_of(marked, true);
            if at < marked.len() {
                candidates[at]
            } else {
                SOURCE_NAME@
            }
        },
    }
}

/// The characters of a text that may be absent.
pub open spec fn text_of(text: Option<String>) -> Option<Seq<char>> {
    match text {
        Some(given) => Some(given@),
        None => None,
    }
}

/// Calls `dirs::home_dir` and `std::path::Path::join`. Trusted without a
/// claim on the result, which the environment decides: the path of the file
/// `name` in the user's home directory, or `None` where no home directory is
/// known.
#[verifier::external_body]
fn home_file(name: &str) -> (path: Option<String>) {
    match dirs::home_dir() {
        Some(dir) => Some(dir.join(name).to_string_lossy().into_owned()),
        None => None,
    }
}

/// The places that are tried in turn, given the place of the file in the
/// home directory.
pub fn candidates_with_home(home_place: Option<String>) -> (candidates: Vec<String>)
    ensures
        names_of(candidates@) == candidate_places(text_of(home_place)),
{
    let mut candidates: Vec<String> = Vec::new();
    candidates.push(SOURCE_NAME.to_owned());
    candidates.push(DOTTED_SOURCE.to_owned());
    let ghost home = text_of(home_place);
    match home_place {
        Some(place) => candidates.push(place),
        None => candidates.push(String::new()),
    }
    candidates.push(LEGACY_SOURCE.to_owned());
    assert(names_of(candidates@) =~= candidate_places(home));
    candidates
}

/// The places that are tried in turn on this host: four of them, the third
/// in the home directory that the environment names.
pub fn candidate_sources() -> (candidates: Vec<String>)
    ensures
        exists|home_place: Option<Seq<char>>|
            names_of(candidates@) == #[trigger] candidate_places(home_place),
{
    candidates_with_home(home_file(SOURCE_NAME))
}

/// Picks the place of the source: the override if there is one, else the
/// first candidate that `present` marks as holding a file, else the file in
/// the current directory.
pub fn select_source(
    override_place: Option<String>,
    candidates: &Vec<String>,
    present: &Vec<bool>,
) -> (place: String)
    ensures
        place@ == chosen_place(text_of(override_place), names_of(candidates@), present@),
{
    let ghost given_place = text_of(override_place);
    if let Some(given) = override_place {
        return given;
    }
    let n: usize = if present.len() < candidates.len() {
        present.len()
    } else {
        candidates.len()
    };
    let ghost marked = if present@.len() < candidates@.len() {
        present@
    } else {
        present@.take(candidates@.len() as int)
    };
    let mut i: usize = 0;
    while i < n
        invariant
            i <= n,
            n == marked.len(),
            n <= candidates.len(),
            n <= present.len(),
            given_place is None,
            given_place == text_of(override_place),
            marked == if present@.len() < candidates@.len() {
                present@
            } else {
                present@.take(candidates@.len() as int)
            },
            forall|k: int| 0 <= k < n ==> marked[k] == present@[k],
            forall|k: int| 0 <= k < i ==> marked[k] != true,
        decreases n - i,
    {
        if present[i] {
            proof {
                lemma_first_index_is(marked, true, i as int);
            }
            return candidates[i].clone();
        }
        i += 1;
    }
    proof {
        lemma_first_index_is(marked, true, n as int);
    }
    SOURCE_NAME.to_owned()
}

/// An override settles the place of the source, whatever files there are.
pub proof fn law_override_wins(place: Seq<char>, candidates: Seq<Seq<char>>, present: Seq<bool>)
    ensures
        chosen_place(Some(place), candidates, present) == place,
{
}

/// Without an override and without a file at any candidate, the source is
/// the file in the current directory.
pub proof fn law_no_file_falls_back(candidates: Seq<Seq<char>>, present: Seq<bool>)
    requires
        forall|k: int| 0 <= k < present.len() ==> !present[k],
    ensures
        chosen_place(None, candidates, present) == SOURCE_NAME@,
{
    let marked = if present.len() < candidates.len() {
        present
    } else {
        present.take(candidates.len() as int)
    };
    lemma_first_index_is(marked, true, marked.len() as int);
}

} // verus!
