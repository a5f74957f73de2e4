//! Why locating a toolkit failed, and the text shown to the operator.

use vstd::prelude::*;
use vstd::string::*;

use crate::probe::Component;

verus! {

/// What is wrong with a toolkit header.
#[derive(Clone, Copy, Debug, PartialEq, Eq, Structural)]
pub enum Malformation {
    /// The header could not be read as text.
    Unreadable,
    /// The header does not hold the version key.
    KeyMissing,
    /// The header ends with the version key.
    ValueMissing,
}

/// A failure to locate a toolkit. None of them is recovered from: a guess at
/// the version or the location could bind a library of another shape.
#[derive(Clone, Debug, PartialEq, Eq)]
pub enum LocateError {
    /// No candidate root holds the component's marker header.
    DiscoveryFailure { component: Component, candidates: Vec<String> },
    /// The marker header is there, but no version can be read from it.
    MalformedInstallation { reason: Malformation },
    /// The header names a version that is not one of the supported ones.
    UnsupportedVersion { token: String },
}

/// A failure as plain values.
pub enum LocateErrorView {
    DiscoveryFailure { component: Component, candidates: Seq<Seq<char>> },
    MalformedInstallation { reason: Malformation },
    UnsupportedVersion { token: Seq<char> },
}

impl View for LocateError {
    type V = LocateErrorView;

    open spec fn view(&self) -> LocateErrorView {
        match *self {
            LocateError::DiscoveryFailure { component, candidates } => {
                LocateErrorView::DiscoveryFailure { component, candidates: candidates.deep_view() }
            },
            LocateError::MalformedInstallation { reason } => {
                LocateErrorView::MalformedInstallation { reason }
            },
            LocateError::UnsupportedVersion { token } => {
                LocateErrorView::UnsupportedVersion { token: token@ }
            },
        }
    }
}

/// What the `{:?}` format writes for a text: the text between double quotes,
/// with the characters that need it escaped.
pub uninterp spec fn debug_quoted(text: Seq<char>) -> Seq<char>;

/// The quoted items, separated by a comma and a space.
pub open spec fn listed_items(items: Seq<Seq<char>>) -> Seq<char>
    decreases items.len(),
{
    if items.len() == 0 {
        Seq::empty()
    } else if items.len() == 1 {
        debug_quoted(items[0])
    } else {
        listed_items(items.drop_last()) + ", "@ + debug_quoted(items.last())
    }
}

/// The quoted items as a list in square brackets.
pub open spec fn listed(items: Seq<Seq<char>>) -> Seq<char> {
    "["@ + listed_items(items) + "]"@
}

impl Malformation {
    /// The text shown for a malformed header.
    pub open spec fn message(self) -> Seq<char> {
        match self {
            Malformation::Unreadable => "Unable to read the toolkit header `include/cuda.h`."@,
            Malformation::KeyMissing => {
                "Unable to find `CUDA_VERSION ` in the toolkit header `include/cuda.h`."@
            },
            Malformation::ValueMissing => {
                "Nothing follows `CUDA_VERSION ` in the toolkit header `include/cuda.h`."@
            },
        }
    }
}

impl LocateErrorView {
    /// The text shown to the operator: what was looked for, everything that
    /// was tried, and how to override it.
    pub open spec fn message(self) -> Seq<char> {
        match self {
            LocateErrorView::DiscoveryFailure { component, candidates } => {
                "Unable to find `"@ + component.marker_text() + "` under any of: "@ + listed(
                    candidates,
                ) + ". Set the `"@ + component.variable_text() + "` environment variable to `$"@
                    + component.variable_text() + "/"@ + component.marker_text()
                    + "` to override path."@
            },
            LocateErrorView::MalformedInstallation { reason } => reason.message(),
            LocateErrorView::UnsupportedVersion { token } => {
                "Unsupported cuda toolkit version: `"@ + token + "`. Please raise a github issue."@
            },
        }
    }
}

/// Calls std's `Debug` formatting of a `str` through `format!`. The result
/// is named, not described: the same text is always quoted the same way.
#[verifier::external_body]
fn debug_quote(text: &str) -> (quoted: String)
    ensures
        quoted@ == debug_quoted(text@),
{
    format!("{:?}", text)
}

/// Writes the items as `{:?}` writes a list of texts.
fn list_text(items: &Vec<String>) -> (text: String)
    ensures
        text@ == listed(items.deep_view()),
{
    let mut text = String::from_str("[");
    let ghost mut body: Seq<char> = Seq::empty();
    let mut i: usize = 0;
    while i < items.len()
        invariant
            i <= items.len(),
            body == listed_items(items.deep_view().take(i as int)),
            text@ == "["@ + body,
        decreases items.len() - i,
    {
        let ghost before = items.deep_view().take(i as int);
        let ghost after = items.deep_view().take(i + 1);
        proof {
            assert(after.drop_last() =~= before);
            assert(after.last() == items[i as int]@);
        }
        if i > 0 {
            text.append(", ");
        }
        let quoted = debug_quote(items[i].as_str());
        text.append(quoted.as_str());
        proof {
            if i > 0 {
                body = body + ", "@ + quoted@;
                assert(text@ =~= "["@ + body);
            } else {
                body = quoted@;
                assert(before =~= Seq::<Seq<char>>::empty());
                assert(text@ =~= "["@ + body);
            }
        }
        i += 1;
    }
    proof {
        assert(items.deep_view().take(items.len() as int) =~= items.deep_view());
    }
    text.append("]");
    text
}

impl Malformation {
    /// The text shown for a malformed header.
    pub fn text(self) -> (text: String)
        ensures
            text@ == self.message(),
    {
        match self {
            Malformation::Unreadable => {
                String::from_str("Unable to read the toolkit header `include/cuda.h`.")
            },
            Malformation::KeyMissing => {
                String::from_str(
                    "Unable to find `CUDA_VERSION ` in the toolkit header `include/cuda.h`.",
                )
            },
            Malformation::ValueMissing => {
                String::from_str(
                    "Nothing follows `CUDA_VERSION ` in the toolkit header `include/cuda.h`.",
                )
            },
        }
    }
}

impl LocateError {
    /// The text shown to the operator.
    pub fn message(&self) -> (text: String)
        ensures
            text@ == self@.message(),
    {
        match self {
            LocateError::DiscoveryFailure { component, candidates } => {
                let mut text = String::from_str("Unable to find `");
                text.append(component.marker_relpath());
                text.append("` under any of: ");
                let list = list_text(candidates);
                text.append(list.as_str());
                text.append(". Set the `");
                text.append(component.override_variable());
                text.append("` environment variable to `$");
                text.append(component.override_variable());
                text.append("/");
                text.append(component.marker_relpath());
                text.append("` to override path.");
                text
            },
            LocateError::MalformedInstallation { reason } => reason.text(),
            LocateError::UnsupportedVersion { token } => {
                let mut text = String::from_str("Unsupported cuda toolkit version: `");
                text.append(token.as_str());
                text.append("`. Please raise a github issue.");
                text
            },
        }
    }
}

} // verus!
