//! Semantic versions, parsed and ordered by the `semver` crate.
use crate::crd::{Error, MonitoringVersion};
use crate::text::decimal;
use vstd::string::*;
use semver::Version;
use std::cmp::Ordering;
use vstd::prelude::*;

verus! {

#[verifier::external_type_specification]
#[verifier::external_body]
pub struct ExSemverVersion(semver::Version);

/// A version parsed by `semver`, with its components copied out as plain values.
///
/// Only `parse_semantic_version` builds one, so the copied components always are
/// those of the held `semver::Version`.
struct SemanticVersion {
    version: Version,
    major: u64,
    minor: u64,
    patch: u64,
    pre: String,
    build: String,
}

/// The three numbers of a version, compared from left to right.
pub enum VersionOrder {
    Less,
    Equal,
    Greater,
}

impl SemanticVersion {
    /// The components: major, minor, patch, pre-release and build metadata.
    spec fn fields(&self) -> (u64, u64, u64, Seq<char>, Seq<char>) {
        (self.major, self.minor, self.patch, self.pre@, self.build@)
    }
}

/// The text `MAJOR.MINOR.PATCH`, each number in canonical decimal.
pub open spec fn version_text(major: nat, minor: nat, patch: nat) -> Seq<char> {
    decimal(major) + seq!['.'] + decimal(minor) + seq!['.'] + decimal(patch)
}

/// The components of a version with the given numbers and neither pre-release
/// nor build metadata.
pub open spec fn plain_fields(n: (u64, u64, u64)) -> (u64, u64, u64, Seq<char>, Seq<char>) {
    (n.0, n.1, n.2, Seq::empty(), Seq::empty())
}

/// A parse result taken by its components, or by the text of its error.
spec fn parse_outcome(r: Result<SemanticVersion, String>) -> Result<
    (u64, u64, u64, Seq<char>, Seq<char>),
    Seq<char>,
> {
    match r {
        Ok(v) => Ok(v.fields()),
        Err(e) => Err(e@),
    }
}

/// Lexicographic order of two triples of numbers.
pub open spec fn triple_order(a: (u64, u64, u64), b: (u64, u64, u64)) -> VersionOrder {
    if a.0 < b.0 || (a.0 == b.0 && (a.1 < b.1 || (a.1 == b.1 && a.2 < b.2))) {
        VersionOrder::Less
    } else if a == b {
        VersionOrder::Equal
    } else {
        VersionOrder::Greater
    }
}

/// What `semver::Version::parse` gives for a text: the components of the version,
/// or the text of the error.
pub uninterp spec fn semver_parse(text: Seq<char>) -> Result<(u64, u64, u64, Seq<char>, Seq<char>), Seq<char>>;

/// What `Ord::cmp` of two `semver::Version` values gives, by their components.
pub uninterp spec fn semver_order(
    a: (u64, u64, u64, Seq<char>, Seq<char>),
    b: (u64, u64, u64, Seq<char>, Seq<char>),
) -> VersionOrder;

/// Calls `semver::Version::parse`. The contract ties the result to the text by
/// the name `semver_parse`, and states what the crate documents for a plain
/// `MAJOR.MINOR.PATCH` text whose numbers are written in decimal without leading zeros:
/// it parses to those three numbers with empty pre-release and build metadata.
/// An error is kept as its display text.
#[verifier::external_body]
fn parse_semantic_version(text: &str) -> (r: Result<SemanticVersion, String>)
    ensures
        parse_outcome(r) == semver_parse(text@),
        forall|a: u64, b: u64, c: u64| #[trigger] version_text(a as nat, b as nat, c as nat)
            == text@ ==> r is Ok && r->Ok_0.fields() == plain_fields((a, b, c)),
{
    match Version::parse(text) {
        Ok(v) => Ok(SemanticVersion {
            major: v.major,
            minor: v.minor,
            patch: v.patch,
            pre: v.pre.as_str().to_string(),
            build: v.build.as_str().to_string(),
            version: v,
        }),
        Err(e) => Err(e.to_string()),
    }
}

/// Calls `Ord::cmp` on two `semver::Version` values. The crate documents that the
/// major, minor and patch numbers are compared first, from left to right; two
/// versions with equal numbers and no pre-release or build metadata are equal.
/// Beyond that the result is named `semver_order`.
#[verifier::external_body]
fn version_order(a: &SemanticVersion, b: &SemanticVersion) -> (r: VersionOrder)
    ensures
        r == semver_order(a.fields(), b.fields()),
        (a.major, a.minor, a.patch) != (b.major, b.minor, b.patch) ==> r == triple_order(
            (a.major, a.minor, a.patch), (b.major, b.minor, b.patch)),
        (a.major, a.minor, a.patch) == (b.major, b.minor, b.patch) && a.pre@.len() == 0
            && a.build@.len() == 0 && b.pre@.len() == 0 && b.build@.len() == 0 ==> r
            == VersionOrder::Equal,
{
    match a.version.cmp(&b.version) {
        Ordering::Less => VersionOrder::Less,
        Ordering::Equal => VersionOrder::Equal,
        Ordering::Greater => VersionOrder::Greater,
    }
}

/// How a move from one version to another is judged.
#[derive(Clone, Debug, PartialEq, Eq)]
pub enum VersioningState {
    ValidUpgrade,
    ValidDowngrade,
    NoOp,
    Invalid(String),
}

/// The judgement of a move between two versions, by their numbers: towards a
/// greater version is an upgrade, towards a smaller one a downgrade.
pub open spec fn versioning_of(from: (u64, u64, u64), to: (u64, u64, u64)) -> VersioningState {
    match triple_order(to, from) {
        VersionOrder::Greater => VersioningState::ValidUpgrade,
        VersionOrder::Less => VersioningState::ValidDowngrade,
        VersionOrder::Equal => VersioningState::NoOp,
    }
}

/// The text of each version is its numbers written in canonical decimal.
proof fn lemma_version_text(v: MonitoringVersion)
    ensures
        v.text() == version_text(v.numbers().0 as nat, v.numbers().1 as nat, v.numbers().2 as nat),
{
    reveal_strlit("2.28.1");
    reveal_strlit("2.30.0");
    assert(decimal(0) == seq!['0']);
    assert(decimal(1) == seq!['1']);
    assert(decimal(2) == seq!['2']);
    assert(decimal(3) == seq!['3']);
    assert(decimal(28) == seq!['2', '8']);
    assert(decimal(30) == seq!['3', '0']);
    match v {
        MonitoringVersion::v2_28_1 => {
            assert(v.text() =~= version_text(2, 28, 1));
        },
        MonitoringVersion::v2_30_0 => {
            assert(v.text() =~= version_text(2, 30, 0));
        },
    }
}

impl MonitoringVersion {
    /// Parses the version text with `semver`; it always succeeds, with the
    /// version's numbers and no pre-release or build metadata.
    fn semantic_version(&self) -> (r: Result<SemanticVersion, String>)
        ensures
            r is Ok && r->Ok_0.fields() == plain_fields(self.numbers()),
    {
        let text = self.to_string();
        proof {
            lemma_version_text(*self);
        }
        let r = parse_semantic_version(text.as_str());
        assert(version_text(self.numbers().0 as nat, self.numbers().1 as nat, self.numbers().2 as nat) == text@);
        r
    }

    /// Whether moving from this version to `to` is an upgrade, as `semver`
    /// orders the two versions.
    pub fn is_valid_upgrade(&self, to: &Self) -> (r: Result<bool, Error>)
        ensures
            r == Ok::<bool, Error>(triple_order(to.numbers(), self.numbers()) == VersionOrder::Greater),
    {
        let from_version = match self.semantic_version() {
            Ok(v) => v,
            Err(reason) => { return Err(Error::SemVer { reason }); },
        };
        let to_version = match to.semantic_version() {
            Ok(v) => v,
            Err(reason) => { return Err(Error::SemVer { reason }); },
        };
        match version_order(&to_version, &from_version) {
            VersionOrder::Greater => Ok(true),
            _ => Ok(false),
        }
    }

    /// Judges a move from this version to `other`: an upgrade, a downgrade or no
    /// change, by the order `semver` gives the two versions.
    pub fn versioning_state(&self, other: &Self) -> (r: VersioningState)
        ensures
            r == versioning_of(self.numbers(), other.numbers()),
    {
        let from_version = match self.semantic_version() {
            Ok(v) => v,
            Err(e) => {
                return VersioningState::Invalid(invalid_version_message(self.to_string(), e));
            },
        };
        let to_version = match other.semantic_version() {
            Ok(v) => v,
            Err(e) => {
                return VersioningState::Invalid(invalid_version_message(other.to_string(), e));
            },
        };
        match version_order(&to_version, &from_version) {
            VersionOrder::Greater => VersioningState::ValidUpgrade,
            VersionOrder::Less => VersioningState::ValidDowngrade,
            VersionOrder::Equal => VersioningState::NoOp,
        }
    }
}

/// `Could not parse [VERSION] to SemVer: REASON`
fn invalid_version_message(version: String, reason: String) -> (s: String)
    ensures
        s@ == "Could not parse ["@ + version@ + "] to SemVer: "@ + reason@,
{
    String::from_str("Could not parse [").concat(version.as_str()).concat("] to SemVer: ").concat(reason.as_str())
}

} // verus!
