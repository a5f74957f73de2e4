//! The supported toolkit releases and the tokens that name them.

use vstd::prelude::*;
use vstd::string::*;

use crate::error::{LocateError, LocateErrorView};
use crate::text::same_text;

verus! {

/// A supported toolkit release. The shape of the bound function table is
/// fixed by this choice alone.
#[derive(Clone, Copy, Debug, PartialEq, Eq, Structural)]
pub enum CudaVersion {
    Cuda11070,
    Cuda11080,
    Cuda12000,
    Cuda12010,
    Cuda12020,
    Cuda12030,
}

impl CudaVersion {
    /// The token that the toolkit header holds for this release.
    pub open spec fn token_text(self) -> Seq<char> {
        match self {
            CudaVersion::Cuda11070 => "11070"@,
            CudaVersion::Cuda11080 => "11080"@,
            CudaVersion::Cuda12000 => "12000"@,
            CudaVersion::Cuda12010 => "12010"@,
            CudaVersion::Cuda12020 => "12020"@,
            CudaVersion::Cuda12030 => "12030"@,
        }
    }

    /// The name of the build feature that selects this release.
    pub open spec fn feature_text(self) -> Seq<char> {
        "cuda-"@ + self.token_text()
    }

    /// The build-script line that switches the release's feature on.
    pub open spec fn cfg_directive_text(self) -> Seq<char> {
        "cargo:rustc-cfg=feature=\""@ + self.feature_text() + "\""@
    }

    /// The token that the toolkit header holds for this release.
    pub fn token(self) -> (token: &'static str)
        ensures
            token@ == self.token_text(),
    {
        match self {
            CudaVersion::Cuda11070 => "11070",
            CudaVersion::Cuda11080 => "11080",
            CudaVersion::Cuda12000 => "12000",
            CudaVersion::Cuda12010 => "12010",
            CudaVersion::Cuda12020 => "12020",
            CudaVersion::Cuda12030 => "12030",
        }
    }

    /// The name of the build feature that selects this release.
    pub fn feature(self) -> (name: String)
        ensures
            name@ == self.feature_text(),
    {
        let mut name = String::from_str("cuda-");
        name.append(self.token());
        name
    }

    /// The build-script line that switches the release's feature on.
    pub fn cfg_directive(self) -> (line: String)
        ensures
            line@ == self.cfg_directive_text(),
    {
        let mut line = String::from_str("cargo:rustc-cfg=feature=\"");
        line.append(self.feature().as_str());
        line.append("\"");
        line
    }
}

/// The release that a token names, if it names one.
pub open spec fn version_of(token: Seq<char>) -> Option<CudaVersion> {
    if token == CudaVersion::Cuda12030.token_text() {
        Some(CudaVersion::Cuda12030)
    } else if token == CudaVersion::Cuda12020.token_text() {
        Some(CudaVersion::Cuda12020)
    } else if token == CudaVersion::Cuda12010.token_text() {
        Some(CudaVersion::Cuda12010)
    } else if token == CudaVersion::Cuda12000.token_text() {
        Some(CudaVersion::Cuda12000)
    } else if token == CudaVersion::Cuda11080.token_text() {
        Some(CudaVersion::Cuda11080)
    } else if token == CudaVersion::Cuda11070.token_text() {
        Some(CudaVersion::Cuda11070)
    } else {
        None
    }
}

/// No two releases share a token.
pub proof fn lemma_tokens_distinct(a: CudaVersion, b: CudaVersion)
    requires
        a.token_text() == b.token_text(),
    ensures
        a == b,
{
    reveal_strlit("11070");
    reveal_strlit("11080");
    reveal_strlit("12000");
    reveal_strlit("12010");
    reveal_strlit("12020");
    reveal_strlit("12030");
    assert("11070"@[1] == '1' && "11070"@[3] == '7');
    assert("11080"@[1] == '1' && "11080"@[3] == '8');
    assert("12000"@[1] == '2' && "12000"@[3] == '0');
    assert("12010"@[1] == '2' && "12010"@[3] == '1');
    assert("12020"@[1] == '2' && "12020"@[3] == '2');
    assert("12030"@[1] == '2' && "12030"@[3] == '3');
}

/// The token of a release is a number of five digits.
pub proof fn lemma_tokens_are_numeric(version: CudaVersion)
    ensures
        version.token_text().len() == 5,
        forall|i: int| 0 <= i < 5 ==> '0' <= #[trigger] version.token_text()[i] <= '9',
{
    reveal_strlit("11070");
    reveal_strlit("11080");
    reveal_strlit("12000");
    reveal_strlit("12010");
    reveal_strlit("12020");
    reveal_strlit("12030");
}

/// Every release is found again from its own token.
pub proof fn lemma_version_of_token(version: CudaVersion)
    ensures
        version_of(version.token_text()) == Some(version),
{
    if version_of(version.token_text()) != Some(version) {
        let other = version_of(version.token_text())->0;
        lemma_tokens_distinct(other, version);
    }
}

/// Tokens and releases correspond one to one: a token names a release exactly
/// when it is that release's token, and names none exactly when it is the
/// token of none.
pub proof fn lemma_version_of_exact(token: Seq<char>)
    ensures
        forall|version: CudaVersion|
            version_of(token) == Some(version) <==> #[trigger] version.token_text() == token,
        version_of(token) is None <==> forall|version: CudaVersion|
            #[trigger] version.token_text() != token,
{
    assert forall|version: CudaVersion| #[trigger] version.token_text() == token implies version_of(
        token,
    ) == Some(version) by {
        lemma_version_of_token(version);
    }
    if version_of(token) is Some {
        let version = version_of(token)->0;
        assert(version.token_text() == token);
    }
}

/// Maps a version token to the release it names. Only the six tokens of the
/// supported releases are accepted; any other text is reported as
/// unsupported, never mapped to a release that is close to it.
pub fn map_version(token: &str) -> (mapped: Result<CudaVersion, LocateError>)
    ensures
        match mapped {
            Ok(version) => version_of(token@) == Some(version),
            Err(error) => {
                &&& version_of(token@) is None
                &&& error@ == LocateErrorView::UnsupportedVersion { token: token@ }
            },
        },
{
    if same_text(token, "12030") {
        Ok(CudaVersion::Cuda12030)
    } else if same_text(token, "12020") {
        Ok(CudaVersion::Cuda12020)
    } else if same_text(token, "12010") {
        Ok(CudaVersion::Cuda12010)
    } else if same_text(token, "12000") {
        Ok(CudaVersion::Cuda12000)
    } else if same_text(token, "11080") {
        Ok(CudaVersion::Cuda11080)
    } else if same_text(token, "11070") {
        Ok(CudaVersion::Cuda11070)
    } else {
        Err(LocateError::UnsupportedVersion { token: String::from_str(token) })
    }
}

} // verus!
