//! The assets bundled into the application (icons), looked up by path.
use vstd::prelude::*;
use crate::words::{has_prefix, starts_with, str_eq};

verus! {

/// The paths of the bundled assets, in bundle order.
pub open spec fn bundled_paths() -> Seq<Seq<char>> {
    seq![
        "icons/copy.svg"@,
        "icons/download.svg"@,
        "icons/history.svg"@,
        "icons/mic.svg"@,
        "icons/models.svg"@,
        "icons/panel.svg"@,
        "icons/settings.svg"@,
        "icons/transcribe.svg"@,
        "icons/trash.svg"@,
    ]
}

/// The embedded asset source. Its content is addressed by position in
/// `bundled_paths`.
pub struct Assets;

fn bundled() -> (paths: Vec<&'static str>)
    ensures
        paths@.map_values(|p: &str| p@) == bundled_paths(),
{
    let mut paths: Vec<&'static str> = Vec::new();
    paths.push("icons/copy.svg");
    paths.push("icons/download.svg");
    paths.push("icons/history.svg");
    paths.push("icons/mic.svg");
    paths.push("icons/models.svg");
    paths.push("icons/panel.svg");
    paths.push("icons/settings.svg");
    paths.push("icons/transcribe.svg");
    paths.push("icons/trash.svg");
    assert(paths@.map_values(|p: &str| p@) =~= bundled_paths());
    paths
}

impl Assets {
    /// The paths of the bundled assets, in bundle order.
    pub fn paths(&self) -> (paths: Vec<&'static str>)
        ensures
            paths@.map_values(|p: &str| p@) == bundled_paths(),
    {
        bundled()
    }

    /// The position of the asset at exactly `path`, if it is bundled.
    pub fn load(&self, path: &str) -> (found: Option<usize>)
        ensures
            found matches Some(i) ==> i < bundled_paths().len() && bundled_paths()[i as int] == path@,
            found is None ==> !bundled_paths().contains(path@),
    {
        let paths = bundled();
        let ghost views = paths@.map_values(|p: &str| p@);
        let mut i: usize = 0;
        while i < paths.len()
            invariant
                i <= paths@.len(),
                views == paths@.map_values(|p: &str| p@),
                views == bundled_paths(),
                forall|j: int| 0 <= j < i ==> #[trigger] views[j] != path@,
            decreases paths@.len() - i,
        {
            if str_eq(paths[i], path) {
                return Some(i);
            }
            i = i + 1;
        }
        None
    }

    /// The bundled paths that start with `path`, in bundle order.
    pub fn list(&self, path: &str) -> (names: Vec<&'static str>)
        ensures
            names@.map_values(|p: &str| p@) == bundled_paths().filter(|p: Seq<char>| has_prefix(p, path@)),
    {
        let paths = bundled();
        let ghost views = paths@.map_values(|p: &str| p@);
        let ghost keep = |p: Seq<char>| has_prefix(p, path@);
        let mut names: Vec<&'static str> = Vec::new();
        let mut i: usize = 0;
        while i < paths.len()
            invariant
                i <= paths@.len(),
                views == paths@.map_values(|p: &str| p@),
                views == bundled_paths(),
                keep == (|p: Seq<char>| has_prefix(p, path@)),
                names@.map_values(|p: &str| p@) == views.take(i as int).filter(keep),
            decreases paths@.len() - i,
        {
            let p = paths[i];
            proof {
                assert(views.take(i + 1) =~= views.take(i as int).push(p@));
                views.take(i as int).lemma_filter_push(p@, keep);
            }
            if starts_with(p, path) {
                let ghost before = names@.map_values(|p: &str| p@);
                names.push(p);
                assert(names@.map_values(|p: &str| p@) =~= before.push(p@));
            }
            i = i + 1;
        }
        assert(views.take(paths@.len() as int) =~= views);
        names
    }
}

} // verus!
