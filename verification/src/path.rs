//! Paths as text: joining a destination directory with the components of an
//! install location.

use vstd::prelude::*;

verus! {

/// The text of the path that `std::path::Path::join` gives for the path
/// `base` and the component `component`.
pub uninterp spec fn path_join(base: Seq<char>, component: Seq<char>) -> Seq<char>;

/// Calls `std::path::Path::join` on `base` with `component` and hands the
/// joined path back as text. The contract only names the result: what the
/// standard library's join gives for the two on the platform the program is
/// built for, where it depends on nothing but them. Both arguments are
/// valid Unicode, so the joined path is too and the conversion back to text
/// loses nothing.
#[verifier::external_body]
pub(crate) fn join_path(base: &str, component: &str) -> (joined: String)
    ensures
        joined@ == path_join(base@, component@),
{
    std::path::Path::new(base).join(component).to_string_lossy().into_owned()
}

/// `root` with each of `components` joined to it in turn.
pub open spec fn joined(root: Seq<char>, components: Seq<Seq<char>>) -> Seq<char>
    decreases components.len(),
{
    if components.len() == 0 {
        root
    } else {
        path_join(joined(root, components.drop_last()), components.last())
    }
}

/// Joins every component to `root`, first to last.
pub fn join_all(root: &str, components: &Vec<String>) -> (path: String)
    ensures
        path@ == joined(root@, components.deep_view()),
{
    let mut path = String::from_str(root);
    let mut i: usize = 0;
    while i < components.len()
        invariant
            i <= components.len(),
            path@ == joined(root@, components.deep_view().take(i as int)),
        decreases components.len() - i,
    {
        let ghost before = components.deep_view().take(i as int);
        let ghost after = components.deep_view().take(i + 1);
        path = join_path(path.as_str(), components[i].as_str());
        proof {
            assert(after.drop_last() == before);
            assert(after.last() == components[i as int]@);
        }
        i += 1;
    }
    proof {
        assert(components.deep_view().take(components.len() as int) == components.deep_view());
    }
    path
}

} // verus!
