//! The choice of the release at build time: exactly one marker is set.

use vstd::prelude::*;
use vstd::string::*;

use crate::version::CudaVersion;

verus! {

/// The markers by which a build fixes the release: one for each supported
/// release, and one that asks for the release of the installed toolkit.
#[derive(Clone, Copy, Debug, PartialEq, Eq, Structural)]
pub struct VersionFlags {
    pub from_build_system: bool,
    pub cuda_12030: bool,
    pub cuda_12020: bool,
    pub cuda_12010: bool,
    pub cuda_12000: bool,
    pub cuda_11080: bool,
    pub cuda_11070: bool,
}

/// How the release is fixed.
#[derive(Clone, Copy, Debug, PartialEq, Eq, Structural)]
pub enum Selection {
    /// The release is that of the toolkit found on this machine.
    FromBuildSystem,
    /// The release is named by the build.
    Pinned(CudaVersion),
}

/// Why no release could be fixed.
#[derive(Clone, Copy, Debug, PartialEq, Eq, Structural)]
pub enum SelectionError {
    /// No marker is set.
    NoneSelected,
    /// More than one marker is set.
    SeveralSelected,
}

/// `selection` alone where its marker is set, and nothing where it is not.
pub open spec fn chosen_if(set: bool, selection: Selection) -> Seq<Selection> {
    if set {
        seq![selection]
    } else {
        Seq::empty()
    }
}

impl VersionFlags {
    /// What the markers that are set stand for.
    pub open spec fn selected(self) -> Seq<Selection> {
        chosen_if(self.from_build_system, Selection::FromBuildSystem) + chosen_if(
            self.cuda_12030,
            Selection::Pinned(CudaVersion::Cuda12030),
        ) + chosen_if(self.cuda_12020, Selection::Pinned(CudaVersion::Cuda12020)) + chosen_if(
            self.cuda_12010,
            Selection::Pinned(CudaVersion::Cuda12010),
        ) + chosen_if(self.cuda_12000, Selection::Pinned(CudaVersion::Cuda12000)) + chosen_if(
            self.cuda_11080,
            Selection::Pinned(CudaVersion::Cuda11080),
        ) + chosen_if(self.cuda_11070, Selection::Pinned(CudaVersion::Cuda11070))
    }
}

impl SelectionError {
    /// The text shown to whoever configures the build.
    pub open spec fn message_text(self) -> Seq<char> {
        match self {
            SelectionError::NoneSelected => {
                "Must specify one of the following features: [cuda-version-from-build-system, cuda-12030, cuda-12020, cuda-12010, cuda-12000, cuda-11080, cuda-11070]"@
            },
            SelectionError::SeveralSelected => {
                "Must specify only one of the following features: [cuda-version-from-build-system, cuda-12030, cuda-12020, cuda-12010, cuda-12000, cuda-11080, cuda-11070]"@
            },
        }
    }

    /// The text shown to whoever configures the build.
    pub fn message(self) -> (text: String)
        ensures
            text@ == self.message_text(),
    {
        match self {
            SelectionError::NoneSelected => {
                String::from_str(
                    "Must specify one of the following features: [cuda-version-from-build-system, cuda-12030, cuda-12020, cuda-12010, cuda-12000, cuda-11080, cuda-11070]",
                )
            },
            SelectionError::SeveralSelected => {
                String::from_str(
                    "Must specify only one of the following features: [cuda-version-from-build-system, cuda-12030, cuda-12020, cuda-12010, cuda-12000, cuda-11080, cuda-11070]",
                )
            },
        }
    }
}

/// Appends `selection` to `set` where its marker is set.
fn note(set: &mut Vec<Selection>, marker: bool, selection: Selection)
    ensures
        final(set)@ == old(set)@ + chosen_if(marker, selection),
{
    if marker {
        set.push(selection);
        assert(set@ =~= old(set)@ + chosen_if(marker, selection));
    } else {
        assert(set@ =~= old(set)@ + chosen_if(marker, selection));
    }
}

/// Fixes the release from the markers of the build. Exactly one marker has
/// to be set: with none, or with more than one, the build is refused, and no
/// release is taken in its place.
pub fn select_version(flags: &VersionFlags) -> (selected: Result<Selection, SelectionError>)
    ensures
        match selected {
            Ok(selection) => flags.selected().len() == 1 && flags.selected()[0] == selection,
            Err(SelectionError::NoneSelected) => flags.selected().len() == 0,
            Err(SelectionError::SeveralSelected) => flags.selected().len() > 1,
        },
{
    let mut set: Vec<Selection> = Vec::new();
    note(&mut set, flags.from_build_system, Selection::FromBuildSystem);
    note(&mut set, flags.cuda_12030, Selection::Pinned(CudaVersion::Cuda12030));
    note(&mut set, flags.cuda_12020, Selection::Pinned(CudaVersion::Cuda12020));
    note(&mut set, flags.cuda_12010, Selection::Pinned(CudaVersion::Cuda12010));
    note(&mut set, flags.cuda_12000, Selection::Pinned(CudaVersion::Cuda12000));
    note(&mut set, flags.cuda_11080, Selection::Pinned(CudaVersion::Cuda11080));
    note(&mut set, flags.cuda_11070, Selection::Pinned(CudaVersion::Cuda11070));
    assert(set@ =~= flags.selected());
    if set.len() == 0 {
        Err(SelectionError::NoneSelected)
    } else if set.len() == 1 {
        Ok(set[0])
    } else {
        Err(SelectionError::SeveralSelected)
    }
}

} // verus!
