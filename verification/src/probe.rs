//! What was found on disk, handed in as plain values.

use vstd::prelude::*;
use vstd::string::*;

verus! {

/// A toolkit component that is located by its marker header.
#[derive(Clone, Copy, Debug, PartialEq, Eq, Structural)]
pub enum Component {
    /// The core toolkit.
    Toolkit,
    /// The deep-learning primitives library, which may be installed under a
    /// root of its own.
    Cudnn,
}

impl Component {
    /// The marker header's path below an installation root.
    pub open spec fn marker_text(self) -> Seq<char> {
        match self {
            Component::Toolkit => "include/cuda.h"@,
            Component::Cudnn => "include/cudnn.h"@,
        }
    }

    /// The environment variable that an operator sets to point at the
    /// component's root.
    pub open spec fn variable_text(self) -> Seq<char> {
        match self {
            Component::Toolkit => "CUDA_ROOT"@,
            Component::Cudnn => "CUDNN_LIB"@,
        }
    }

    /// The marker header's path below an installation root.
    pub fn marker_relpath(self) -> (relpath: &'static str)
        ensures
            relpath@ == self.marker_text(),
    {
        match self {
            Component::Toolkit => "include/cuda.h",
            Component::Cudnn => "include/cudnn.h",
        }
    }

    /// The environment variable that an operator sets to point at the
    /// component's root.
    pub fn override_variable(self) -> (name: &'static str)
        ensures
            name@ == self.variable_text(),
    {
        match self {
            Component::Toolkit => "CUDA_ROOT",
            Component::Cudnn => "CUDNN_LIB",
        }
    }
}

/// One path and whether what was looked for is there: for an installation
/// root, its marker header as a regular file; for a library directory, the
/// directory itself.
#[derive(Clone, Debug, PartialEq, Eq)]
pub struct Probe {
    pub path: String,
    pub present: bool,
}

/// A probe as plain values.
pub struct ProbeView {
    pub path: Seq<char>,
    pub present: bool,
}

impl View for Probe {
    type V = ProbeView;

    open spec fn view(&self) -> ProbeView {
        ProbeView { path: self.path@, present: self.present }
    }
}

impl DeepView for Probe {
    type V = ProbeView;

    open spec fn deep_view(&self) -> ProbeView {
        self@
    }
}

/// The paths of all probes, in order.
pub open spec fn probed_paths(probes: Seq<ProbeView>) -> Seq<Seq<char>> {
    Seq::new(probes.len(), |i: int| probes[i].path)
}

/// The paths that are present, in the order of the probes.
pub open spec fn present_paths(probes: Seq<ProbeView>) -> Seq<Seq<char>>
    decreases probes.len(),
{
    if probes.len() == 0 {
        Seq::empty()
    } else if probes.last().present {
        present_paths(probes.drop_last()).push(probes.last().path)
    } else {
        present_paths(probes.drop_last())
    }
}

/// The present paths of two lists of probes, one after the other, are those
/// of the first list and then those of the second.
pub proof fn lemma_present_paths_add(a: Seq<ProbeView>, b: Seq<ProbeView>)
    ensures
        present_paths(a + b) == present_paths(a) + present_paths(b),
    decreases b.len(),
{
    if b.len() == 0 {
        assert(a + b =~= a);
        assert(present_paths(a) + present_paths(b) =~= present_paths(a));
    } else {
        lemma_present_paths_add(a, b.drop_last());
        assert((a + b).drop_last() =~= a + b.drop_last());
        assert((a + b).last() == b.last());
        if b.last().present {
            assert(present_paths(a + b) =~= present_paths(a) + present_paths(b));
        }
    }
}

/// `i` is the index of the first probe that is present.
pub open spec fn is_first_present(probes: Seq<ProbeView>, i: int) -> bool {
    &&& 0 <= i < probes.len()
    &&& probes[i].present
    &&& forall|j: int| 0 <= j < i ==> !probes[j].present
}

/// The index of the first probe that is present.
pub open spec fn first_present(probes: Seq<ProbeView>) -> Option<int>
    decreases probes.len(),
{
    if probes.len() == 0 {
        None
    } else {
        match first_present(probes.drop_last()) {
            Some(i) => Some(i),
            None => if probes.last().present {
                Some(probes.len() - 1)
            } else {
                None
            },
        }
    }
}

/// `first_present` gives the index of a probe that is present and before
/// which none is; it gives nothing exactly when no probe is present.
pub proof fn lemma_first_present(probes: Seq<ProbeView>)
    ensures
        match first_present(probes) {
            Some(i) => is_first_present(probes, i),
            None => forall|i: int| 0 <= i < probes.len() ==> !probes[i].present,
        },
        forall|i: int| is_first_present(probes, i) ==> first_present(probes) == Some(i),
    decreases probes.len(),
{
    if probes.len() > 0 {
        let front = probes.drop_last();
        lemma_first_present(front);
        assert(forall|j: int| 0 <= j < front.len() ==> front[j] == probes[j]);
        assert forall|i: int| is_first_present(probes, i) implies first_present(probes) == Some(
            i,
        ) by {
            if i < front.len() {
                assert(is_first_present(front, i));
            } else if first_present(front) is Some {
                assert(front[first_present(front)->0].present);
            }
        }
    }
}

/// The present paths start with the path of the first probe that is present,
/// and are empty exactly when no probe is.
pub proof fn lemma_present_paths_first(probes: Seq<ProbeView>)
    ensures
        match first_present(probes) {
            Some(i) => present_paths(probes).len() > 0 && present_paths(probes)[0]
                == probes[i].path,
            None => present_paths(probes).len() == 0,
        },
    decreases probes.len(),
{
    if probes.len() > 0 {
        let front = probes.drop_last();
        lemma_present_paths_first(front);
        lemma_first_present(front);
        if first_present(front) is Some {
            assert(front[first_present(front)->0] == probes[first_present(front)->0]);
        }
    }
}

/// The paths of all probes, in order.
pub fn paths_of(probes: &Vec<Probe>) -> (paths: Vec<String>)
    ensures
        paths.deep_view() == probed_paths(probes.deep_view()),
{
    let mut paths: Vec<String> = Vec::new();
    let mut i: usize = 0;
    while i < probes.len()
        invariant
            i <= probes.len(),
            paths.deep_view() == probed_paths(probes.deep_view().take(i as int)),
        decreases probes.len() - i,
    {
        let ghost before = paths.deep_view();
        paths.push(probes[i].path.clone());
        proof {
            let path = probes[i as int].path@;
            assert(paths.deep_view() =~= before.push(path));
            assert(probes.deep_view().take(i + 1)[i as int].path == path);
            assert(probed_paths(probes.deep_view().take(i + 1)) =~= before.push(path));
        }
        i += 1;
    }
    proof {
        assert(probes.deep_view().take(probes.len() as int) =~= probes.deep_view());
    }
    paths
}

/// The index of the first probe that is present.
pub fn first_present_index(probes: &Vec<Probe>) -> (found: Option<usize>)
    ensures
        match found {
            Some(i) => i < probes.len() && first_present(probes.deep_view()) == Some(i as int),
            None => first_present(probes.deep_view()) is None,
        },
{
    let mut i: usize = 0;
    while i < probes.len()
        invariant
            i <= probes.len(),
            forall|j: int| 0 <= j < i ==> !probes.deep_view()[j].present,
        decreases probes.len() - i,
    {
        if probes[i].present {
            proof {
                assert(is_first_present(probes.deep_view(), i as int));
                lemma_first_present(probes.deep_view());
            }
            return Some(i);
        }
        i += 1;
    }
    proof {
        lemma_first_present(probes.deep_view());
        if first_present(probes.deep_view()) is Some {
            assert(probes.deep_view()[first_present(probes.deep_view())->0].present);
        }
    }
    None
}

} // verus!
