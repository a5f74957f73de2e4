//! The build as a whole: from what was found on disk to the lines that are
//! handed to the build system.

use vstd::prelude::*;
use vstd::string::*;

use crate::error::{LocateError, LocateErrorView};
use crate::header::{detect_version, detected_version};
use crate::linking::{enumerate_link_dirs, link_directive_texts, link_directives, Capabilities};
use crate::probe::{
    first_present, first_present_index, lemma_first_present, paths_of, present_paths,
    probed_paths, Component, Probe, ProbeView,
};
use crate::selection::{select_version, Selection, SelectionError, VersionFlags};
use crate::version::CudaVersion;

verus! {

/// What is known of the toolkit header below a root.
#[derive(Clone, Debug, PartialEq, Eq)]
pub enum HeaderFacts {
    /// There is no regular file at the header's path.
    Missing,
    /// The file is there, but could not be read as text.
    Unreadable,
    /// The file's text.
    Text { text: String },
}

/// Header facts as plain values.
pub enum HeaderFactsView {
    Missing,
    Unreadable,
    Text { text: Seq<char> },
}

impl View for HeaderFacts {
    type V = HeaderFactsView;

    open spec fn view(&self) -> HeaderFactsView {
        match *self {
            HeaderFacts::Missing => HeaderFactsView::Missing,
            HeaderFacts::Unreadable => HeaderFactsView::Unreadable,
            HeaderFacts::Text { text } => HeaderFactsView::Text { text: text@ },
        }
    }
}

impl HeaderFactsView {
    /// The header's text, where it could be read.
    pub open spec fn contents(self) -> Option<Seq<char>> {
        match self {
            HeaderFactsView::Text { text } => Some(text),
            _ => None,
        }
    }
}

/// What was found below one candidate root.
#[derive(Clone, Debug, PartialEq, Eq)]
pub struct RootFacts {
    /// The candidate root.
    pub root: String,
    /// The toolkit's marker header below the root.
    pub toolkit_header: HeaderFacts,
    /// Whether the marker header of the deep-learning primitives library is
    /// a regular file below the root.
    pub cudnn_header: bool,
    /// The places below the root where libraries may lie, each with whether
    /// it is a directory.
    pub link_dirs: Vec<Probe>,
}

/// Root facts as plain values.
pub struct RootFactsView {
    pub root: Seq<char>,
    pub toolkit_header: HeaderFactsView,
    pub cudnn_header: bool,
    pub link_dirs: Seq<ProbeView>,
}

impl View for RootFacts {
    type V = RootFactsView;

    open spec fn view(&self) -> RootFactsView {
        RootFactsView {
            root: self.root@,
            toolkit_header: self.toolkit_header@,
            cudnn_header: self.cudnn_header,
            link_dirs: self.link_dirs.deep_view(),
        }
    }
}

impl DeepView for RootFacts {
    type V = RootFactsView;

    open spec fn deep_view(&self) -> RootFactsView {
        self@
    }
}

impl RootFactsView {
    /// Whether the marker header of `component` is a regular file below the
    /// root.
    pub open spec fn has_marker(self, component: Component) -> bool {
        match component {
            Component::Toolkit => !(self.toolkit_header is Missing),
            Component::Cudnn => self.cudnn_header,
        }
    }
}

/// What a build asks for.
#[derive(Clone, Copy, Debug, PartialEq, Eq, Structural)]
pub struct BuildConfig {
    /// The markers that fix the release.
    pub versions: VersionFlags,
    /// Whether library directories and link targets are registered here, or
    /// linking is left to the build that embeds this one.
    pub dynamic_linking: bool,
    /// The native libraries that are asked for.
    pub capabilities: Capabilities,
}

/// Why a build is refused.
#[derive(Clone, Debug, PartialEq, Eq)]
pub enum BuildError {
    /// The markers do not fix one release.
    Selection(SelectionError),
    /// No usable installation was found.
    Locate(LocateError),
}

/// A refusal as plain values.
pub enum BuildErrorView {
    Selection(SelectionError),
    Locate(LocateErrorView),
}

impl View for BuildError {
    type V = BuildErrorView;

    open spec fn view(&self) -> BuildErrorView {
        match *self {
            BuildError::Selection(error) => BuildErrorView::Selection(error),
            BuildError::Locate(error) => BuildErrorView::Locate(error@),
        }
    }
}

impl BuildErrorView {
    /// The text shown to the operator.
    pub open spec fn message(self) -> Seq<char> {
        match self {
            BuildErrorView::Selection(error) => error.message_text(),
            BuildErrorView::Locate(error) => error.message(),
        }
    }
}

/// The candidate roots, each with whether the marker header of `component`
/// was found below it.
pub open spec fn marker_probes(facts: Seq<RootFactsView>, component: Component) -> Seq<
    ProbeView,
> {
    Seq::new(
        facts.len(),
        |i: int| ProbeView { path: facts[i].root, present: facts[i].has_marker(component) },
    )
}

/// The index of the root that is chosen for `component`: the first one with
/// its marker header. Without one, the failure lists all roots.
pub open spec fn located(facts: Seq<RootFactsView>, component: Component) -> Result<
    int,
    LocateErrorView,
> {
    match first_present(marker_probes(facts, component)) {
        Some(i) => Ok(i),
        None => Err(
            LocateErrorView::DiscoveryFailure {
                component,
                candidates: probed_paths(marker_probes(facts, component)),
            },
        ),
    }
}

/// The release of the installed toolkit: that of the header below the root
/// that is chosen for the toolkit.
pub open spec fn installed_version(facts: Seq<RootFactsView>) -> Result<
    CudaVersion,
    LocateErrorView,
> {
    match located(facts, Component::Toolkit) {
        Err(error) => Err(error),
        Ok(i) => detected_version(facts[i].toolkit_header.contents()),
    }
}

/// The lines of a dynamically linked build: the library directories that
/// exist below the toolkit's root, those below the root of the deep-learning
/// primitives library where it is asked for, and the link targets. That
/// library's header is looked for only where the library is asked for.
pub open spec fn dynamic_linking_lines(
    facts: Seq<RootFactsView>,
    capabilities: Capabilities,
) -> Result<Seq<Seq<char>>, LocateErrorView> {
    match located(facts, Component::Toolkit) {
        Err(error) => Err(error),
        Ok(i) => {
            let toolkit_dirs = present_paths(facts[i].link_dirs);
            if capabilities.cudnn {
                match located(facts, Component::Cudnn) {
                    Err(error) => Err(error),
                    Ok(j) => Ok(
                        link_directive_texts(
                            toolkit_dirs,
                            present_paths(facts[j].link_dirs),
                            capabilities,
                        ),
                    ),
                }
            } else {
                Ok(link_directive_texts(toolkit_dirs, Seq::empty(), capabilities))
            }
        },
    }
}

/// The lines that fix the release: none where the build names it, and the
/// line that switches on the installed release where the build asks for
/// that.
pub open spec fn version_lines(selection: Selection, facts: Seq<RootFactsView>) -> Result<
    Seq<Seq<char>>,
    LocateErrorView,
> {
    match selection {
        Selection::Pinned(_) => Ok(Seq::empty()),
        Selection::FromBuildSystem => match installed_version(facts) {
            Err(error) => Err(error),
            Ok(version) => Ok(seq![version.cfg_directive_text()]),
        },
    }
}

/// All lines of a build, or why it is refused. The markers are judged first,
/// then the release, then the linking.
pub open spec fn build_lines(config: BuildConfig, facts: Seq<RootFactsView>) -> Result<
    Seq<Seq<char>>,
    BuildErrorView,
> {
    let selected = config.versions.selected();
    if selected.len() == 0 {
        Err(BuildErrorView::Selection(SelectionError::NoneSelected))
    } else if selected.len() > 1 {
        Err(BuildErrorView::Selection(SelectionError::SeveralSelected))
    } else {
        match version_lines(selected[0], facts) {
            Err(error) => Err(BuildErrorView::Locate(error)),
            Ok(first) => if config.dynamic_linking {
                match dynamic_linking_lines(facts, config.capabilities) {
                    Err(error) => Err(BuildErrorView::Locate(error)),
                    Ok(second) => Ok(first + second),
                }
            } else {
                Ok(first)
            },
        }
    }
}

/// The root that is chosen for a component is the first in priority order
/// below which its marker header was found; the search fails exactly when
/// the header was found below none.
pub proof fn lemma_located_is_first(facts: Seq<RootFactsView>, component: Component)
    ensures
        match located(facts, component) {
            Ok(i) => {
                &&& 0 <= i < facts.len()
                &&& facts[i].has_marker(component)
                &&& forall|j: int| 0 <= j < i ==> !facts[j].has_marker(component)
            },
            Err(_) => forall|j: int| 0 <= j < facts.len() ==> !facts[j].has_marker(component),
        },
{
    let probes = marker_probes(facts, component);
    lemma_first_present(probes);
    match located(facts, component) {
        Ok(i) => {
            assert(probes[i].present);
            assert forall|j: int| 0 <= j < i implies !facts[j].has_marker(component) by {
                assert(!probes[j].present);
            }
        },
        Err(_) => {
            assert forall|j: int| 0 <= j < facts.len() implies !facts[j].has_marker(
                component,
            ) by {
                assert(!probes[j].present);
            }
        },
    }
}

/// Where the deep-learning primitives library is not asked for, its marker
/// header is not looked for: two surveys that differ only in where that
/// header was found give the same lines, or the same failure.
pub proof fn lemma_cudnn_only_on_request(
    a: Seq<RootFactsView>,
    b: Seq<RootFactsView>,
    capabilities: Capabilities,
)
    requires
        !capabilities.cudnn,
        a.len() == b.len(),
        forall|i: int|
            0 <= i < a.len() ==> {
                &&& a[i].root == b[i].root
                &&& a[i].toolkit_header == b[i].toolkit_header
                &&& a[i].link_dirs == b[i].link_dirs
            },
    ensures
        dynamic_linking_lines(a, capabilities) == dynamic_linking_lines(b, capabilities),
{
    assert(marker_probes(a, Component::Toolkit) =~= marker_probes(b, Component::Toolkit));
    lemma_first_present(marker_probes(a, Component::Toolkit));
}

/// A build that names its release does not depend on the toolkit header:
/// with linking left to the embedding build, it gives no line and cannot
/// fail to locate anything.
pub proof fn lemma_pinned_release_reads_nothing(config: BuildConfig, facts: Seq<RootFactsView>)
    requires
        config.versions.selected().len() == 1,
        config.versions.selected()[0] is Pinned,
        !config.dynamic_linking,
    ensures
        build_lines(config, facts) == Ok::<Seq<Seq<char>>, BuildErrorView>(Seq::empty()),
{
}

impl BuildError {
    /// The text shown to the operator.
    pub fn message(&self) -> (text: String)
        ensures
            text@ == self@.message(),
    {
        match self {
            BuildError::Selection(error) => error.message(),
            BuildError::Locate(error) => error.message(),
        }
    }
}

/// The candidate roots, each with whether the marker header of `component`
/// was found below it.
fn marker_probes_of(facts: &Vec<RootFacts>, component: Component) -> (probes: Vec<Probe>)
    ensures
        probes.deep_view() == marker_probes(facts.deep_view(), component),
{
    let mut probes: Vec<Probe> = Vec::new();
    let mut i: usize = 0;
    while i < facts.len()
        invariant
            i <= facts.len(),
            probes.deep_view() == marker_probes(facts.deep_view().take(i as int), component),
        decreases facts.len() - i,
    {
        let ghost before = probes.deep_view();
        let present = match component {
            Component::Toolkit => match facts[i].toolkit_header {
                HeaderFacts::Missing => false,
                _ => true,
            },
            Component::Cudnn => facts[i].cudnn_header,
        };
        let probe = Probe { path: facts[i].root.clone(), present };
        probes.push(probe);
        proof {
            assert(probes.deep_view() =~= before.push(probe@));
            assert(facts.deep_view().take(i + 1)[i as int] == facts[i as int]@);
            assert(marker_probes(facts.deep_view().take(i + 1), component) =~= before.push(
                probe@,
            ));
        }
        i += 1;
    }
    proof {
        assert(facts.deep_view().take(facts.len() as int) =~= facts.deep_view());
    }
    probes
}

/// Chooses the root of `component` among the candidates, which stand in
/// priority order, and gives its index: that of the first candidate below
/// which the component's marker header was found.
pub fn locate(component: Component, facts: &Vec<RootFacts>) -> (found: Result<usize, LocateError>)
    ensures
        match found {
            Ok(i) => i < facts.len() && located(facts.deep_view(), component) == Ok::<
                int,
                LocateErrorView,
            >(i as int),
            Err(error) => located(facts.deep_view(), component) == Err::<int, LocateErrorView>(
                error@,
            ),
        },
{
    let probes = marker_probes_of(facts, component);
    match first_present_index(&probes) {
        Some(i) => {
            assert(probes.deep_view().len() == facts.len());
            Ok(i)
        },
        None => Err(LocateError::DiscoveryFailure { component, candidates: paths_of(&probes) }),
    }
}

/// The release of the installed toolkit.
pub fn version_from_build_system(facts: &Vec<RootFacts>) -> (version: Result<
    CudaVersion,
    LocateError,
>)
    ensures
        match version {
            Ok(version) => installed_version(facts.deep_view()) == Ok::<
                CudaVersion,
                LocateErrorView,
            >(version),
            Err(error) => installed_version(facts.deep_view()) == Err::<
                CudaVersion,
                LocateErrorView,
            >(error@),
        },
{
    match locate(Component::Toolkit, facts) {
        Err(error) => Err(error),
        Ok(i) => {
            assert(facts.deep_view()[i as int] == facts[i as int]@);
            match &facts[i].toolkit_header {
                HeaderFacts::Text { text } => detect_version(Some(text.as_str())),
                _ => detect_version(None),
            }
        },
    }
}

/// The lines of a dynamically linked build.
pub fn dynamic_linking(facts: &Vec<RootFacts>, capabilities: &Capabilities) -> (lines: Result<
    Vec<String>,
    LocateError,
>)
    ensures
        match lines {
            Ok(lines) => dynamic_linking_lines(facts.deep_view(), *capabilities) == Ok::<
                Seq<Seq<char>>,
                LocateErrorView,
            >(lines.deep_view()),
            Err(error) => dynamic_linking_lines(facts.deep_view(), *capabilities) == Err::<
                Seq<Seq<char>>,
                LocateErrorView,
            >(error@),
        },
{
    match locate(Component::Toolkit, facts) {
        Err(error) => Err(error),
        Ok(i) => {
            assert(facts.deep_view()[i as int] == facts[i as int]@);
            let toolkit_dirs = enumerate_link_dirs(&facts[i].link_dirs);
            if capabilities.cudnn {
                match locate(Component::Cudnn, facts) {
                    Err(error) => Err(error),
                    Ok(j) => {
                        assert(facts.deep_view()[j as int] == facts[j as int]@);
                        let cudnn_dirs = enumerate_link_dirs(&facts[j].link_dirs);
                        Ok(link_directives(&toolkit_dirs, &cudnn_dirs, capabilities))
                    },
                }
            } else {
                let cudnn_dirs: Vec<String> = Vec::new();
                assert(cudnn_dirs.deep_view() =~= Seq::<Seq<char>>::empty());
                Ok(link_directives(&toolkit_dirs, &cudnn_dirs, capabilities))
            }
        },
    }
}

/// All lines that a build hands to the build system, or why it is refused.
/// `facts` holds, for each candidate root in priority order, what was found
/// below it.
pub fn build_directives(config: &BuildConfig, facts: &Vec<RootFacts>) -> (lines: Result<
    Vec<String>,
    BuildError,
>)
    ensures
        match lines {
            Ok(lines) => build_lines(*config, facts.deep_view()) == Ok::<
                Seq<Seq<char>>,
                BuildErrorView,
            >(lines.deep_view()),
            Err(error) => build_lines(*config, facts.deep_view()) == Err::<
                Seq<Seq<char>>,
                BuildErrorView,
            >(error@),
        },
{
    let selection = match select_version(&config.versions) {
        Err(error) => {
            return Err(BuildError::Selection(error));
        },
        Ok(selection) => selection,
    };
    let mut lines: Vec<String> = Vec::new();
    match selection {
        Selection::Pinned(_) => {},
        Selection::FromBuildSystem => match version_from_build_system(facts) {
            Err(error) => {
                return Err(BuildError::Locate(error));
            },
            Ok(version) => {
                lines.push(version.cfg_directive());
            },
        },
    }
    let ghost first = lines.deep_view();
    assert(version_lines(selection, facts.deep_view()) == Ok::<Seq<Seq<char>>, LocateErrorView>(
        first,
    )) by {
        match selection {
            Selection::Pinned(_) => {
                assert(first =~= Seq::<Seq<char>>::empty());
            },
            Selection::FromBuildSystem => {
                let version = installed_version(facts.deep_view())->Ok_0;
                assert(first =~= seq![version.cfg_directive_text()]);
            },
        }
    }
    if config.dynamic_linking {
        match dynamic_linking(facts, &config.capabilities) {
            Err(error) => {
                return Err(BuildError::Locate(error));
            },
            Ok(mut second) => {
                let ghost tail = second.deep_view();
                lines.append(&mut second);
                assert(lines.deep_view() =~= first + tail);
            },
        }
    }
    Ok(lines)
}

} // verus!
