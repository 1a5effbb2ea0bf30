//! Version requests and the concrete versions they resolve to.

use crate::error::{Failure, FailureKind, FailureView};
use crate::text::{decimal, is_digit, render_number, same_text};
use vstd::prelude::*;

verus! {

/// What the user asked for, for one tool.
#[derive(Clone, Debug, PartialEq, Eq)]
pub enum VersionSpec {
    /// The tool is not wanted.
    Absent,
    /// Whatever the newest release is.
    Latest,
    /// This version, as the user wrote it.
    Specific(String),
}

/// What a `VersionSpec` is in contracts.
pub enum VersionRequest {
    Absent,
    Latest,
    Specific(Seq<char>),
}

impl View for VersionSpec {
    type V = VersionRequest;

    open spec fn view(&self) -> VersionRequest {
        match self {
            VersionSpec::Absent => VersionRequest::Absent,
            VersionSpec::Latest => VersionRequest::Latest,
            VersionSpec::Specific(text) => VersionRequest::Specific(text@),
        }
    }
}

/// The request that a configuration value stands for: nothing and "none" ask
/// for no tool, "latest" for the newest release, anything else for itself.
pub open spec fn request_of(value: Seq<char>) -> VersionRequest {
    if value == ""@ || value == "none"@ {
        VersionRequest::Absent
    } else if value == "latest"@ {
        VersionRequest::Latest
    } else {
        VersionRequest::Specific(value)
    }
}

impl VersionSpec {
    /// Reads a version request from a configuration value.
    pub fn parse(value: &str) -> (spec: VersionSpec)
        ensures
            spec@ == request_of(value@),
    {
        if same_text(value, "") || same_text(value, "none") {
            VersionSpec::Absent
        } else if same_text(value, "latest") {
            VersionSpec::Latest
        } else {
            VersionSpec::Specific(String::from_str(value))
        }
    }

    /// Tells whether the tool is wanted at all.
    pub fn is_requested(&self) -> (wanted: bool)
        ensures
            wanted == !(self@ is Absent),
    {
        match self {
            VersionSpec::Absent => false,
            _ => true,
        }
    }
}

/// A semantic version: three numbers, and the pre-release and build tags
/// that may follow them (empty where there is none).
pub struct Semver {
    pub major: nat,
    pub minor: nat,
    pub patch: nat,
    pub pre: Seq<char>,
    pub build: Seq<char>,
}

impl Semver {
    /// The version with these three numbers and no tags.
    pub open spec fn release(major: nat, minor: nat, patch: nat) -> Semver {
        Semver { major, minor, patch, pre: Seq::empty(), build: Seq::empty() }
    }

    /// The version as text: the numbers joined by dots, then a hyphen and
    /// the pre-release tag, then a plus sign and the build tag.
    pub open spec fn render(self) -> Seq<char> {
        let pre = if self.pre.len() > 0 {
            "-"@ + self.pre
        } else {
            Seq::empty()
        };
        let build = if self.build.len() > 0 {
            "+"@ + self.build
        } else {
            Seq::empty()
        };
        self.render_numbers() + pre + build
    }

    /// The three numbers alone, joined by dots.
    pub open spec fn render_numbers(self) -> Seq<char> {
        decimal(self.major) + "."@ + decimal(self.minor) + "."@ + decimal(self.patch)
    }

    /// Whether the three numbers of this version, read from left to right,
    /// come before those of `other`.
    pub open spec fn numbers_before(self, other: Semver) -> bool {
        if self.major != other.major {
            self.major < other.major
        } else if self.minor != other.minor {
            self.minor < other.minor
        } else {
            self.patch < other.patch
        }
    }

    /// Whether this version and `other` have the same three numbers.
    pub open spec fn same_numbers(self, other: Semver) -> bool {
        self.major == other.major && self.minor == other.minor && self.patch == other.patch
    }

    /// `self` is `other` or comes after it in precedence.
    pub open spec fn at_least(self, other: Semver) -> bool {
        !semver_precedes(self, other)
    }
}

/// What is said of text that is no version.
pub open spec fn not_a_version() -> FailureView {
    FailureView { kind: FailureKind::Version, message: "The provided version is not valid."@ }
}

/// The version that the text denotes under the SemVer grammar, if it denotes
/// one.
pub uninterp spec fn semver_parse(text: Seq<char>) -> Option<Semver>;

/// Whether the first version comes before the second in SemVer precedence,
/// in which build tags play no part. A pre-release tag that is not well
/// formed counts as no tag.
pub uninterp spec fn semver_precedes(first: Semver, second: Semver) -> bool;

/// What the `semver` crate's parser returns for text that it refuses.
#[verifier::external_type_specification]
#[verifier::external_body]
pub struct ExSemverError(semver::Error);

/// A validated semantic version.
#[derive(Clone, Debug, PartialEq, Eq)]
pub struct ResolvedVersion {
    pub major: u64,
    pub minor: u64,
    pub patch: u64,
    /// The pre-release tag, empty for a release.
    pub pre: String,
    /// The build tag, empty where there is none.
    pub build: String,
}

impl View for ResolvedVersion {
    type V = Semver;

    open spec fn view(&self) -> Semver {
        Semver {
            major: self.major as nat,
            minor: self.minor as nat,
            patch: self.patch as nat,
            pre: self.pre@,
            build: self.build@,
        }
    }
}

/// `semver::Version::parse`: the result is the version that the text denotes
/// under the SemVer grammar, taken apart into its numbers and tags.
///
/// The crate's parser reads three decimal numbers without leading zeros,
/// with a dot between them; then, after a hyphen, the pre-release tag; then,
/// after a plus sign, the build tag; and it refuses text that holds anything
/// more. It keeps both tags as they are written. So the grammar admits one
/// spelling of each version, and a version that was parsed renders as the
/// text it was parsed from.
#[verifier::external_body]
fn parse_semver(text: &str) -> (parsed: Result<ResolvedVersion, semver::Error>)
    ensures
        match parsed {
            Ok(version) => semver_parse(text@) == Some(version@),
            Err(_) => semver_parse(text@) is None,
        },
        parsed matches Ok(version) ==> version@.render() == text@,
{
    match semver::Version::parse(text) {
        Ok(version) => Ok(
            ResolvedVersion {
                major: version.major,
                minor: version.minor,
                patch: version.patch,
                pre: version.pre.as_str().to_string(),
                build: version.build.as_str().to_string(),
            },
        ),
        Err(refusal) => Err(refusal),
    }
}

/// `semver::Version::cmp_precedence` on the two versions, each put together
/// again from its numbers and its pre-release tag: whether the first comes
/// before the second in SemVer precedence.
///
/// The crate compares the three numbers from left to right, and the
/// pre-release tags only where all three are equal; there, a version
/// without such a tag is greater than one with a tag and equal to one
/// without. So versions with different numbers are ordered by their
/// numbers, and a release comes before no version with its own numbers. A
/// pre-release tag that the crate does not accept is taken as no tag.
#[verifier::external_body]
fn compare_precedence(first: &ResolvedVersion, second: &ResolvedVersion) -> (less: bool)
    ensures
        less == semver_precedes(first@, second@),
        !first@.same_numbers(second@) ==> less == first@.numbers_before(second@),
        first@.same_numbers(second@) && first@.pre.len() == 0 ==> !less,
{
    let mut left = semver::Version::new(first.major, first.minor, first.patch);
    left.pre = semver::Prerelease::new(first.pre.as_str()).unwrap_or_default();
    let mut right = semver::Version::new(second.major, second.minor, second.patch);
    right.pre = semver::Prerelease::new(second.pre.as_str()).unwrap_or_default();
    left.cmp_precedence(&right).is_lt()
}

impl ResolvedVersion {
    /// The release with these three numbers.
    pub fn new(major: u64, minor: u64, patch: u64) -> (version: ResolvedVersion)
        ensures
            version@ == Semver::release(major as nat, minor as nat, patch as nat),
    {
        ResolvedVersion { major, minor, patch, pre: String::new(), build: String::new() }
    }

    /// Reads a version from text. Text that is no semantic version is a
    /// version error.
    pub fn parse(text: &str) -> (parsed: Result<ResolvedVersion, Failure>)
        ensures
            match parsed {
                Ok(version) => semver_parse(text@) == Some(version@) && version@.render() == text@,
                Err(failure) => semver_parse(text@) is None && failure@ == not_a_version(),
            },
    {
        match parse_semver(text) {
            Ok(version) => Ok(version),
            Err(_) => Err(Failure::new(FailureKind::Version, "The provided version is not valid.")),
        }
    }

    /// A copy of this version.
    pub fn copy(&self) -> (version: ResolvedVersion)
        ensures
            version == *self,
    {
        ResolvedVersion {
            major: self.major,
            minor: self.minor,
            patch: self.patch,
            pre: self.pre.clone(),
            build: self.build.clone(),
        }
    }

    /// The version as text, as it stands in directory names and addresses.
    pub fn to_text(&self) -> (text: String)
        ensures
            text@ == self@.render(),
    {
        let mut text = self.numbers();
        if !self.pre.as_str().is_empty() {
            text.append("-");
            text.append(self.pre.as_str());
        }
        if !self.build.as_str().is_empty() {
            text.append("+");
            text.append(self.build.as_str());
        }
        assert(text@ =~= self@.render());
        text
    }

    /// The three numbers alone, joined by dots.
    pub fn numbers(&self) -> (text: String)
        ensures
            text@ == self@.render_numbers(),
    {
        let mut text = render_number(self.major);
        text.append(".");
        text.append(render_number(self.minor).as_str());
        text.append(".");
        text.append(render_number(self.patch).as_str());
        text
    }

    /// Tells whether this version comes before `other` in precedence.
    /// Where the numbers differ they decide; a release comes before no
    /// version with its own numbers.
    pub fn precedes(&self, other: &ResolvedVersion) -> (before: bool)
        ensures
            before == semver_precedes(self@, other@),
            !self@.same_numbers(other@) ==> before == self@.numbers_before(other@),
            self@.same_numbers(other@) && self@.pre.len() == 0 ==> !before,
    {
        compare_precedence(self, other)
    }

    /// Tells whether this version is `wanted` or newer, which is what makes
    /// an installed version good enough.
    pub fn satisfies(&self, wanted: &ResolvedVersion) -> (enough: bool)
        ensures
            enough == self@.at_least(wanted@),
            !self@.same_numbers(wanted@) ==> enough == wanted@.numbers_before(self@),
            self@.same_numbers(wanted@) && self@.pre.len() == 0 ==> enough,
    {
        !self.precedes(wanted)
    }
}

/// A release tag without its prefix: one leading character that is no digit
/// is dropped, and nothing else.
pub open spec fn without_prefix(tag: Seq<char>) -> Seq<char> {
    if tag.len() > 0 && !is_digit(tag[0]) {
        tag.subrange(1, tag.len() as int)
    } else {
        tag
    }
}

/// Drops the prefix of a release tag, such as the "v" of "v1.2.3".
pub fn strip_tag_prefix(tag: &str) -> (rest: &str)
    ensures
        rest@ == without_prefix(tag@),
{
    let len: usize = tag.unicode_len();
    if len == 0 {
        return tag;
    }
    let first = tag.get_char(0);
    if first >= '0' && first <= '9' {
        tag
    } else {
        tag.substring_char(1, len)
    }
}

/// Resolves a request for one given version: the text is parsed as it
/// stands, and text that is no semantic version is a version error.
pub fn resolve_specific(text: &str) -> (resolved: Result<ResolvedVersion, Failure>)
    ensures
        match resolved {
            Ok(version) => semver_parse(text@) == Some(version@) && version@.render() == text@,
            Err(failure) => semver_parse(text@) is None && failure@ == not_a_version(),
        },
{
    ResolvedVersion::parse(text)
}

/// Resolves a request for the newest release from the tag that the release
/// index gave: the tag loses its prefix and is then parsed.
pub fn resolve_latest(tag: &str) -> (resolved: Result<ResolvedVersion, Failure>)
    ensures
        match resolved {
            Ok(version) => semver_parse(without_prefix(tag@)) == Some(version@)
                && version@.render() == without_prefix(tag@),
            Err(failure) => semver_parse(without_prefix(tag@)) is None && failure@
                == not_a_version(),
        },
{
    ResolvedVersion::parse(strip_tag_prefix(tag))
}

} // verus!
