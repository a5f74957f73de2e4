//! Reading the toolkit version out of the text of the toolkit header.

use vstd::prelude::*;
use vstd::string::*;

use crate::error::{LocateError, LocateErrorView, Malformation};
use crate::text::{
    chars_of, find, first_occurrence, lemma_first_occurrence_from, lemma_first_occurrence_is,
    occurs_at,
};
use crate::version::{map_version, version_of, CudaVersion};

verus! {

/// The text that stands right before the version token in the header.
pub const VERSION_KEY: &'static str = "CUDA_VERSION ";

/// The index of the first line feed in `text` at or after `from`, or the
/// length of `text` where there is none.
pub open spec fn line_end(text: Seq<char>, from: int) -> int
    decreases text.len() - from,
{
    if from < 0 || from >= text.len() {
        text.len() as int
    } else if text[from] == '\n' {
        from
    } else {
        line_end(text, from + 1)
    }
}

/// The first line of `text` without its terminator, which is a line feed or
/// a carriage return and a line feed. Empty text has no line.
pub open spec fn first_line(text: Seq<char>) -> Option<Seq<char>> {
    let end = line_end(text, 0);
    if text.len() == 0 {
        None
    } else if 0 < end < text.len() && text[end - 1] == '\r' {
        Some(text.take(end - 1))
    } else {
        Some(text.take(end))
    }
}

/// The version token of a header: what follows the first occurrence of the
/// key, up to the end of that line. Text elsewhere in the header has no say.
pub open spec fn version_token(header: Seq<char>) -> Result<Seq<char>, Malformation> {
    match first_occurrence(header, VERSION_KEY@) {
        None => Err(Malformation::KeyMissing),
        Some(at) => match first_line(header.skip(at + VERSION_KEY@.len())) {
            None => Err(Malformation::ValueMissing),
            Some(line) => Ok(line),
        },
    }
}

/// What reading a header gives: the release that its token names.
pub open spec fn detected_version(contents: Option<Seq<char>>) -> Result<
    CudaVersion,
    LocateErrorView,
> {
    match contents {
        None => Err(LocateErrorView::MalformedInstallation { reason: Malformation::Unreadable }),
        Some(header) => match version_token(header) {
            Err(reason) => Err(LocateErrorView::MalformedInstallation { reason }),
            Ok(token) => match version_of(token) {
                Some(version) => Ok(version),
                None => Err(LocateErrorView::UnsupportedVersion { token }),
            },
        },
    }
}

/// Whether `outcome` is what `extract_version` gives for `header`.
pub open spec fn is_extraction(header: Seq<char>, outcome: Result<String, LocateError>) -> bool {
    match outcome {
        Ok(token) => version_token(header) == Ok::<Seq<char>, Malformation>(token@),
        Err(error) => {
            &&& version_token(header) is Err
            &&& error@ == LocateErrorView::MalformedInstallation {
                reason: version_token(header)->Err_0,
            }
        },
    }
}

/// An outcome as plain values.
pub open spec fn extraction_view(outcome: Result<String, LocateError>) -> Result<
    Seq<char>,
    LocateErrorView,
> {
    match outcome {
        Ok(token) => Ok(token@),
        Err(error) => Err(error@),
    }
}

/// A line ends at `end` when no line feed stands from `from` up to `end`, and
/// `end` holds one or is the end of the text.
pub proof fn lemma_line_end(text: Seq<char>, from: int, end: int)
    requires
        0 <= from <= end <= text.len(),
        forall|j: int| from <= j < end ==> text[j] != '\n',
        end == text.len() || text[end] == '\n',
    ensures
        line_end(text, from) == end,
    decreases end - from,
{
    if from < end {
        lemma_line_end(text, from + 1, end);
    }
}

/// Reading the same header again gives the same token, or the same failure.
pub proof fn lemma_extraction_repeats(
    header: Seq<char>,
    first: Result<String, LocateError>,
    second: Result<String, LocateError>,
)
    requires
        is_extraction(header, first),
        is_extraction(header, second),
    ensures
        extraction_view(first) == extraction_view(second),
{
}

/// Only the first occurrence of the key counts, and only its line. Where
/// the key first stands right after `before` and is followed by `token`, and
/// `token` is one line that the end of the text or a line feed ends, the
/// header's token is `token`, whatever else `before` and `after` hold.
pub proof fn lemma_token_after_first_key(before: Seq<char>, token: Seq<char>, after: Seq<char>)
    requires
        forall|j: int|
            0 <= j < before.len() ==> !occurs_at(
                before + VERSION_KEY@ + token + after,
                VERSION_KEY@,
                j,
            ),
        forall|j: int| 0 <= j < token.len() ==> token[j] != '\n',
        token.len() + after.len() > 0,
        after.len() == 0 || after[0] == '\n',
        after.len() > 0 ==> token.len() == 0 || token.last() != '\r',
    ensures
        version_token(before + VERSION_KEY@ + token + after) == Ok::<Seq<char>, Malformation>(
            token,
        ),
{
    let key = VERSION_KEY@;
    let header = before + key + token + after;
    let at = before.len() as int;
    assert(header.subrange(at, at + key.len()) =~= key);
    lemma_first_occurrence_is(header, key, at);
    let rest = header.skip(at + key.len());
    assert(rest =~= token + after);
    lemma_line_end(rest, 0, token.len() as int);
    assert(rest.take(token.len() as int) =~= token);
}

/// Reads the version token out of the text of the toolkit header: the text
/// between the first occurrence of the key and the end of that line. The key
/// is matched exactly. A header without the key, or one that ends with it, is
/// malformed.
pub fn extract_version(header: &str) -> (outcome: Result<String, LocateError>)
    ensures
        is_extraction(header@, outcome),
{
    let text = chars_of(header);
    let key = chars_of(VERSION_KEY);
    match find(&text, &key) {
        None => Err(LocateError::MalformedInstallation { reason: Malformation::KeyMissing }),
        Some(at) => {
            proof {
                lemma_first_occurrence_from(text@, key@, 0);
                assert(occurs_at(text@, key@, at as int));
            }
            let len: usize = text.len();
            let start: usize = at + key.len();
            if start == len {
                return Err(
                    LocateError::MalformedInstallation { reason: Malformation::ValueMissing },
                );
            }
            let mut end: usize = start;
            while end < text.len() && text[end] != '\n'
                invariant
                    start <= end <= text.len(),
                    forall|j: int| start <= j < end ==> text@[j] != '\n',
                decreases text.len() - end,
            {
                end += 1;
            }
            let ghost rest = text@.skip(start as int);
            proof {
                lemma_line_end(rest, 0, end - start);
            }
            let stop: usize = if start < end && end < text.len() && text[end - 1] == '\r' {
                (end - 1) as usize
            } else {
                end
            };
            let token = String::from_str(header.substring_char(start, stop));
            proof {
                assert(rest.take(stop - start) =~= header@.subrange(start as int, stop as int));
            }
            Ok(token)
        },
    }
}

/// Reads the release out of the toolkit header. `contents` is the header's
/// text, or nothing where the header could not be read as text.
pub fn detect_version(contents: Option<&str>) -> (detected: Result<CudaVersion, LocateError>)
    ensures
        match detected {
            Ok(version) => detected_version(contents.deep_view()) == Ok::<
                CudaVersion,
                LocateErrorView,
            >(version),
            Err(error) => detected_version(contents.deep_view()) == Err::<
                CudaVersion,
                LocateErrorView,
            >(error@),
        },
{
    match contents {
        None => Err(LocateError::MalformedInstallation { reason: Malformation::Unreadable }),
        Some(header) => match extract_version(header) {
            Err(error) => Err(error),
            Ok(token) => map_version(token.as_str()),
        },
    }
}

} // verus!
