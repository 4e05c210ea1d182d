//! Semantic versions as plain values: parsing through `semver`, equality,
//! semver's ranking, and their textual form.

use vstd::prelude::*;
use vstd::string::{StrSliceExecFns, StringExecFns};
use crate::compiler::GodBoltError;
use crate::text::{decimal, join_text, u64_text};

verus! {

/// `semver`'s parse error, carried through unread.
#[verifier::external_type_specification]
#[verifier::external_body]
pub struct ExSemverError(semver::Error);

/// What `semver::Version::parse` makes of a text: its major, minor and patch
/// numbers, pre-release tag and build metadata, or nothing when the text is
/// not a semantic version.
pub uninterp spec fn semver_parse(s: Seq<char>) -> Option<(u64, u64, u64, Seq<char>, Seq<char>)>;

/// Relies on `semver::Version::parse`, read back through its public fields
/// and the `as_str` of its pre-release and build parts.
#[verifier::external_body]
fn parse_semver(s: &str) -> (r: Result<(u64, u64, u64, String, String), semver::Error>)
    ensures
        match r {
            Ok(t) => semver_parse(s@) == Some((t.0, t.1, t.2, t.3@, t.4@)),
            Err(_) => semver_parse(s@) is None,
        },
{
    match semver::Version::parse(s) {
        Ok(v) => Ok((v.major, v.minor, v.patch, v.pre.as_str().to_string(), v.build.as_str().to_string())),
        Err(e) => Err(e),
    }
}

/// The mathematical value of a version.
pub struct VersionView {
    pub major: u64,
    pub minor: u64,
    pub patch: u64,
    pub pre: Seq<char>,
    pub build: Seq<char>,
}

/// A semantic version: three numbers, an optional pre-release tag and optional
/// build metadata (each empty when absent).
pub struct Version {
    major: u64,
    minor: u64,
    patch: u64,
    pre: String,
    build: String,
}

/// Whether the parts are what `semver` makes of some text.
pub open spec fn is_semver_parts(v: VersionView) -> bool {
    exists|s: Seq<char>| semver_parse(s) == Some((v.major, v.minor, v.patch, v.pre, v.build))
}

/// How `semver` ranks two versions: -1, 0 or 1.
pub uninterp spec fn semver_order(a: VersionView, b: VersionView) -> int;

impl View for Version {
    type V = VersionView;

    closed spec fn view(&self) -> VersionView {
        VersionView {
            major: self.major,
            minor: self.minor,
            patch: self.patch,
            pre: self.pre@,
            build: self.build@,
        }
    }
}

/// Orders two numbers: -1, 0 or 1.
pub open spec fn num_cmp(a: u64, b: u64) -> int {
    if a < b { -1 } else if a > b { 1 } else { 0 }
}

/// The text of a version, as `semver` writes it: `1.2.3`, then `-pre` and
/// `+build` where those are present.
pub open spec fn version_text(v: VersionView) -> Seq<char> {
    let core = decimal(v.major as nat) + seq!['.'] + decimal(v.minor as nat) + seq!['.']
        + decimal(v.patch as nat);
    let with_pre = if v.pre.len() == 0 { core } else { core + seq!['-'] + v.pre };
    if v.build.len() == 0 { with_pre } else { with_pre + seq!['+'] + v.build }
}

/// Relies on `Ord for semver::Version`: derived over major, minor, patch,
/// pre-release and build metadata in that order, the last two by
/// `Prerelease::cmp` and `BuildMetadata::cmp`, equal only on equal parts. The
/// parts are rebuilt with `Prerelease::new` and `BuildMetadata::new`, which
/// accept every pre-release and build text that `Version::parse` gives.
#[verifier::external_body]
fn semver_compare(a: &Version, b: &Version) -> (r: i8)
    requires
        is_semver_parts(a@),
        is_semver_parts(b@),
    ensures
        r as int == semver_order(a@, b@),
        r == -1 || r == 0 || r == 1,
        (r == 0) == (a@ == b@),
        a@.major != b@.major ==> r as int == num_cmp(a@.major, b@.major),
        a@.major == b@.major && a@.minor != b@.minor ==> r as int == num_cmp(a@.minor, b@.minor),
        a@.major == b@.major && a@.minor == b@.minor && a@.patch != b@.patch ==> r as int
            == num_cmp(a@.patch, b@.patch),
{
    let x = semver::Version {
        pre: semver::Prerelease::new(&a.pre).unwrap(),
        build: semver::BuildMetadata::new(&a.build).unwrap(),
        ..semver::Version::new(a.major, a.minor, a.patch)
    };
    let y = semver::Version {
        pre: semver::Prerelease::new(&b.pre).unwrap(),
        build: semver::BuildMetadata::new(&b.build).unwrap(),
        ..semver::Version::new(b.major, b.minor, b.patch)
    };
    match x.cmp(&y) {
        core::cmp::Ordering::Less => -1,
        core::cmp::Ordering::Equal => 0,
        core::cmp::Ordering::Greater => 1,
    }
}

impl Version {
    /// The parts are always what `semver` makes of some text.
    #[verifier::type_invariant]
    closed spec fn parsed(&self) -> bool {
        is_semver_parts(self@)
    }

    /// The major number.
    pub fn major(&self) -> (r: u64)
        ensures
            r == self@.major,
    {
        self.major
    }

    /// The minor number.
    pub fn minor(&self) -> (r: u64)
        ensures
            r == self@.minor,
    {
        self.minor
    }

    /// The patch number.
    pub fn patch(&self) -> (r: u64)
        ensures
            r == self@.patch,
    {
        self.patch
    }

    /// The pre-release tag, empty when there is none.
    pub fn pre(&self) -> (r: &str)
        ensures
            r@ == self@.pre,
    {
        self.pre.as_str()
    }

    /// The build metadata, empty when there is none.
    pub fn build(&self) -> (r: &str)
        ensures
            r@ == self@.build,
    {
        self.build.as_str()
    }

    /// Parses a semantic version; a text that is not one is a version parse error.
    pub fn parse(text: &str) -> (r: Result<Version, GodBoltError>)
        ensures
            match r {
                Ok(v) => semver_parse(text@) == Some((v@.major, v@.minor, v@.patch, v@.pre, v@.build)),
                Err(e) => semver_parse(text@) is None && e is VersionParse,
            },
    {
        match parse_semver(text) {
            Ok(t) => Ok(Version { major: t.0, minor: t.1, patch: t.2, pre: t.3, build: t.4 }),
            Err(e) => Err(GodBoltError::VersionParse(e)),
        }
    }

    /// Whether two versions are equal in every part.
    pub fn same(&self, other: &Version) -> (r: bool)
        ensures
            r == (self@ == other@),
    {
        self.major == other.major && self.minor == other.minor && self.patch == other.patch
            && self.pre == other.pre && self.build == other.build
    }

    /// Ranks this version against another as `semver` does: -1, 0 or 1.
    pub fn compare(&self, other: &Version) -> (r: i8)
        ensures
            r as int == semver_order(self@, other@),
            (r == 0) == (self@ == other@),
    {
        proof {
            use_type_invariant(self);
            use_type_invariant(other);
        }
        semver_compare(self, other)
    }

    /// The text of this version, as `version_text` gives it.
    pub fn to_text(&self) -> (r: String)
        ensures
            r@ == version_text(self@),
    {
        proof {
            reveal_strlit(".");
            reveal_strlit("-");
            reveal_strlit("+");
        }
        let mut s = join_text(u64_text(self.major), ".");
        s = join_text(s, u64_text(self.minor).as_str());
        s = join_text(s, ".");
        s = join_text(s, u64_text(self.patch).as_str());
        if self.pre.as_str().unicode_len() != 0 {
            s = join_text(s, "-");
            s = join_text(s, self.pre.as_str());
        }
        if self.build.as_str().unicode_len() != 0 {
            s = join_text(s, "+");
            s = join_text(s, self.build.as_str());
        }
        s
    }
}

/// A version that may be absent: compilers without one rank below all that
/// have one, and write as the empty text.
pub struct OptionalVersion {
    pub version: Option<Version>,
}

impl View for OptionalVersion {
    type V = Option<VersionView>;

    open spec fn view(&self) -> Option<VersionView> {
        match self.version {
            Some(v) => Some(v@),
            None => None,
        }
    }
}

/// Ranks two possibly absent versions as `semver` does, an absent one lowest.
pub open spec fn optional_version_cmp(a: Option<VersionView>, b: Option<VersionView>) -> int {
    match (a, b) {
        (None, None) => 0,
        (None, Some(_)) => -1,
        (Some(_), None) => 1,
        (Some(x), Some(y)) => semver_order(x, y),
    }
}

/// The text of a possibly absent version; empty when it is absent.
pub open spec fn optional_version_text(v: Option<VersionView>) -> Seq<char> {
    match v {
        Some(x) => version_text(x),
        None => Seq::empty(),
    }
}

impl OptionalVersion {
    /// No version.
    pub fn absent() -> (r: OptionalVersion)
        ensures
            r@ is None,
    {
        OptionalVersion { version: None }
    }

    /// The given version.
    pub fn present(v: Version) -> (r: OptionalVersion)
        ensures
            r@ == Some(v@),
    {
        OptionalVersion { version: Some(v) }
    }

    /// Whether both are absent, or both present and equal.
    pub fn same(&self, other: &OptionalVersion) -> (r: bool)
        ensures
            r == (self@ == other@),
    {
        match (&self.version, &other.version) {
            (None, None) => true,
            (Some(a), Some(b)) => a.same(b),
            _ => false,
        }
    }

    /// Ranks as `optional_version_cmp` does; 0 only on equal values.
    pub fn compare(&self, other: &OptionalVersion) -> (r: i8)
        ensures
            r as int == optional_version_cmp(self@, other@),
            (r == 0) == (self@ == other@),
    {
        match (&self.version, &other.version) {
            (None, None) => 0,
            (None, Some(_)) => -1,
            (Some(_), None) => 1,
            (Some(a), Some(b)) => a.compare(b),
        }
    }

    /// The text of the version, empty when it is absent.
    pub fn to_text(&self) -> (r: String)
        ensures
            r@ == optional_version_text(self@),
    {
        match &self.version {
            Some(v) => v.to_text(),
            None => String::new(),
        }
    }

    /// A copy of this value.
    pub fn duplicate(&self) -> (r: OptionalVersion)
        ensures
            r@ == self@,
    {
        match &self.version {
            Some(v) => {
                proof {
                    use_type_invariant(v);
                }
                OptionalVersion {
                    version: Some(
                        Version {
                            major: v.major,
                            minor: v.minor,
                            patch: v.patch,
                            pre: v.pre.clone(),
                            build: v.build.clone(),
                        },
                    ),
                }
            },
            None => OptionalVersion { version: None },
        }
    }
}

} // verus!
