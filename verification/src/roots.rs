//! Candidate installation roots and the choice of one of them.

use vstd::prelude::*;
use vstd::string::*;

use crate::error::{LocateError, LocateErrorView};
use crate::probe::{
    first_present, first_present_index, is_first_present, lemma_first_present,
    lemma_present_paths_add, lemma_present_paths_first, paths_of, present_paths, probed_paths,
    Component, Probe, ProbeView,
};
use crate::text::{join_path, joined};

verus! {

/// The environment variables that may name a root, in the order in which
/// they are consulted.
pub open spec fn override_variable_names() -> Seq<Seq<char>> {
    seq!["CUDA_PATH"@, "CUDA_ROOT"@, "CUDA_TOOLKIT_ROOT_DIR"@, "CUDNN_LIB"@]
}

/// The lines that have the build run again when it changes itself or when
/// one of the variables that name a toolkit root changes.
pub open spec fn rerun_directive_texts() -> Seq<Seq<char>> {
    seq![
        "cargo:rerun-if-changed=build.rs"@,
        "cargo:rerun-if-env-changed=CUDA_ROOT"@,
        "cargo:rerun-if-env-changed=CUDA_PATH"@,
        "cargo:rerun-if-env-changed=CUDA_TOOLKIT_ROOT_DIR"@,
    ]
}

/// The roots that are tried after those from the environment, in order.
pub open spec fn default_roots() -> Seq<Seq<char>> {
    seq![
        "/usr"@,
        "/usr/local/cuda"@,
        "/opt/cuda"@,
        "/usr/lib/cuda"@,
        "C:/Program Files/NVIDIA GPU Computing Toolkit"@,
        "C:/CUDA"@,
    ]
}

/// The values that are set, in the order of their variables.
pub open spec fn supplied_roots(values: Seq<Option<Seq<char>>>) -> Seq<Seq<char>>
    decreases values.len(),
{
    if values.len() == 0 {
        Seq::empty()
    } else {
        match values.last() {
            Some(root) => supplied_roots(values.drop_last()).push(root),
            None => supplied_roots(values.drop_last()),
        }
    }
}

/// All candidate roots in priority order: those from the environment first,
/// then the default ones. A root that occurs twice is tried twice.
pub open spec fn candidate_roots(values: Seq<Option<Seq<char>>>) -> Seq<Seq<char>> {
    supplied_roots(values) + default_roots()
}

/// The root that is chosen: the first one whose marker header is present.
pub open spec fn selected_root(probes: Seq<ProbeView>) -> Option<Seq<char>> {
    match first_present(probes) {
        Some(i) => Some(probes[i].path),
        None => None,
    }
}

/// The chosen root is the first candidate in order whose marker header is
/// present, and none is chosen only when no candidate has one.
pub proof fn lemma_selected_root_is_first(probes: Seq<ProbeView>)
    ensures
        selected_root(probes) is None <==> forall|i: int|
            0 <= i < probes.len() ==> !probes[i].present,
        forall|i: int|
            is_first_present(probes, i) ==> selected_root(probes) == Some(probes[i].path),
{
    lemma_first_present(probes);
    if first_present(probes) is Some {
        assert(probes[first_present(probes)->0].present);
    }
}

/// Candidates without a marker header have no say: two candidate lists whose
/// candidates with a marker header are the same, in the same order, choose
/// the same root, wherever the other candidates stand.
pub proof fn lemma_absent_candidates_do_not_matter(a: Seq<ProbeView>, b: Seq<ProbeView>)
    requires
        present_paths(a) == present_paths(b),
    ensures
        selected_root(a) == selected_root(b),
{
    lemma_present_paths_first(a);
    lemma_present_paths_first(b);
}

/// A candidate without a marker header changes nothing, wherever it stands
/// in the list: such candidates may be moved, added or left out, and the same
/// root is chosen.
pub proof fn lemma_absent_candidate_anywhere(
    probes: Seq<ProbeView>,
    at: int,
    candidate: ProbeView,
)
    requires
        0 <= at <= probes.len(),
        !candidate.present,
    ensures
        selected_root(probes.insert(at, candidate)) == selected_root(probes),
{
    let front = probes.take(at);
    let back = probes.skip(at);
    let one = seq![candidate];
    assert(probes.insert(at, candidate) =~= front + one + back);
    assert(probes =~= front + back);
    assert(one.drop_last() =~= Seq::<ProbeView>::empty());
    assert(present_paths(Seq::<ProbeView>::empty()) =~= Seq::<Seq<char>>::empty());
    assert(present_paths(one) =~= Seq::<Seq<char>>::empty());
    lemma_present_paths_add(front, one);
    lemma_present_paths_add(front + one, back);
    lemma_present_paths_add(front, back);
    assert(present_paths(front) + present_paths(one) =~= present_paths(front));
    lemma_absent_candidates_do_not_matter(probes.insert(at, candidate), probes);
}

/// The names of the environment variables that may name a root, in the order
/// in which they are consulted.
pub fn override_variables() -> (names: Vec<String>)
    ensures
        names.deep_view() == override_variable_names(),
{
    let mut names: Vec<String> = Vec::new();
    names.push(String::from_str("CUDA_PATH"));
    names.push(String::from_str("CUDA_ROOT"));
    names.push(String::from_str("CUDA_TOOLKIT_ROOT_DIR"));
    names.push(String::from_str("CUDNN_LIB"));
    assert(names.deep_view() =~= override_variable_names());
    names
}

/// The lines that have the build run again when it changes itself or when
/// one of the variables that name a toolkit root changes.
pub fn rerun_directives() -> (lines: Vec<String>)
    ensures
        lines.deep_view() == rerun_directive_texts(),
{
    let mut lines: Vec<String> = Vec::new();
    lines.push(String::from_str("cargo:rerun-if-changed=build.rs"));
    lines.push(String::from_str("cargo:rerun-if-env-changed=CUDA_ROOT"));
    lines.push(String::from_str("cargo:rerun-if-env-changed=CUDA_PATH"));
    lines.push(String::from_str("cargo:rerun-if-env-changed=CUDA_TOOLKIT_ROOT_DIR"));
    assert(lines.deep_view() =~= rerun_directive_texts());
    lines
}

/// The candidate roots in priority order. `values` holds, for each of the
/// override variables in their order, its value if it is set.
pub fn root_candidates(values: &Vec<Option<String>>) -> (roots: Vec<String>)
    ensures
        roots.deep_view() == candidate_roots(values.deep_view()),
{
    let mut roots: Vec<String> = Vec::new();
    let mut i: usize = 0;
    while i < values.len()
        invariant
            i <= values.len(),
            roots.deep_view() == supplied_roots(values.deep_view().take(i as int)),
        decreases values.len() - i,
    {
        let ghost before = roots.deep_view();
        proof {
            assert(values.deep_view().take(i + 1).drop_last() =~= values.deep_view().take(
                i as int,
            ));
            assert(values.deep_view().take(i + 1).last() == values[i as int].deep_view());
        }
        match &values[i] {
            Some(root) => {
                roots.push(root.clone());
                assert(roots.deep_view() =~= before.push(root@));
            },
            None => {},
        }
        i += 1;
    }
    let ghost supplied = roots.deep_view();
    proof {
        assert(values.deep_view().take(values.len() as int) =~= values.deep_view());
    }
    roots.push(String::from_str("/usr"));
    roots.push(String::from_str("/usr/local/cuda"));
    roots.push(String::from_str("/opt/cuda"));
    roots.push(String::from_str("/usr/lib/cuda"));
    roots.push(String::from_str("C:/Program Files/NVIDIA GPU Computing Toolkit"));
    roots.push(String::from_str("C:/CUDA"));
    assert(roots.deep_view() =~= supplied + default_roots());
    roots
}

/// The path of a component's marker header below `root`.
pub fn marker_path(root: &str, component: Component) -> (path: String)
    ensures
        path@ == joined(root@, component.marker_text()),
{
    join_path(root, component.marker_relpath())
}

/// Chooses the installation root of `component`. Each probe holds a
/// candidate root and whether the component's marker header is a regular
/// file below it; the probes stand in priority order. The first candidate
/// with a marker header is chosen. Where there is none, the failure lists
/// every candidate that was tried.
pub fn find_root(component: Component, probes: &Vec<Probe>) -> (found: Result<
    String,
    LocateError,
>)
    ensures
        match found {
            Ok(root) => selected_root(probes.deep_view()) == Some(root@),
            Err(error) => {
                &&& selected_root(probes.deep_view()) is None
                &&& error@ == LocateErrorView::DiscoveryFailure {
                    component,
                    candidates: probed_paths(probes.deep_view()),
                }
            },
        },
{
    match first_present_index(probes) {
        Some(i) => Ok(probes[i].path.clone()),
        None => Err(LocateError::DiscoveryFailure { component, candidates: paths_of(probes) }),
    }
}

} // verus!
