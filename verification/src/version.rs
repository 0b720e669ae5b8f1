//! Three-part versions: their order, how they are read from text and how they
//! are written.

use vstd::prelude::*;
use crate::text::{
    all_digits, char_is_digit, decimal, decimal_text, is_digit, lemma_decimal_digits,
    lemma_decimal_injective,
};

verus! {

/// A version `major.minor.patch`, ordered by its three numbers from left to
/// right.
#[derive(Clone, Copy, Debug, PartialEq, Eq, Structural, PartialOrd, Ord, Hash)]
pub struct SemanticVersion {
    pub major: u64,
    pub minor: u64,
    pub patch: u64,
}

/// The failure to read a text as a version.
#[derive(Clone, Copy, Debug, PartialEq, Eq, Structural)]
pub struct UnparsableVersion;

/// What reading a text gives: the version, or the failure.
pub type Parsed = Result<SemanticVersion, UnparsableVersion>;

/// The parts of a version text as the `semver` crate reads them.
#[derive(Clone, Debug, PartialEq, Eq)]
pub struct VersionFields {
    pub major: u64,
    pub minor: u64,
    pub patch: u64,
    /// The pre-release suffix without its hyphen, empty if there is none.
    pub pre: String,
    /// The build suffix without its plus sign, empty if there is none.
    pub build: String,
}

/// The mathematical value of a [`VersionFields`].
pub ghost struct VersionFieldsView {
    pub major: u64,
    pub minor: u64,
    pub patch: u64,
    pub pre: Seq<char>,
    pub build: Seq<char>,
}

impl View for VersionFields {
    type V = VersionFieldsView;

    open spec fn view(&self) -> VersionFieldsView {
        VersionFieldsView {
            major: self.major,
            minor: self.minor,
            patch: self.patch,
            pre: self.pre@,
            build: self.build@,
        }
    }
}

impl VersionFieldsView {
    /// There is neither a pre-release nor a build suffix.
    pub open spec fn is_plain(self) -> bool {
        self.pre.len() == 0 && self.build.len() == 0
    }

    /// The three numbers as a version.
    pub open spec fn version(self) -> SemanticVersion {
        SemanticVersion { major: self.major, minor: self.minor, patch: self.patch }
    }

    /// The version that the fields stand for: none where there is a suffix.
    pub open spec fn plain_version(self) -> Parsed {
        if self.is_plain() {
            Ok(self.version())
        } else {
            Err(UnparsableVersion)
        }
    }
}

/// `text` writes some version: it is three numbers up to `u64::MAX` in base
/// ten, without leading zeros, joined by dots, and nothing else.
pub open spec fn is_version_text(text: Seq<char>) -> bool {
    exists|version: SemanticVersion| #[trigger] version.text() == text
}

/// Calls `semver::Version::parse` and hands out the fields of the version it
/// returns, the two suffixes as the text that `as_str` gives for them.
///
/// Trusted, as the crate documents its syntax: the call returns a version
/// without suffixes for exactly the texts that are three numbers in base ten,
/// without leading zeros and none above `u64::MAX`, joined by dots; and the
/// numbers it returns are the numbers written. Of any other text the contract
/// leaves open what comes back.
#[verifier::external_body]
fn read_semver(text: &str) -> (fields: Option<VersionFields>)
    ensures
        (fields matches Some(f) && f@.is_plain()) <==> is_version_text(text@),
        fields matches Some(f) ==> (f@.is_plain() ==> text@ == f@.version().text()),
{
    match semver::Version::parse(text) {
        Ok(version) => Some(
            VersionFields {
                major: version.major,
                minor: version.minor,
                patch: version.patch,
                pre: version.pre.as_str().to_string(),
                build: version.build.as_str().to_string(),
            },
        ),
        Err(_) => None,
    }
}

/// `text` without its first character, where that character is not a digit.
pub open spec fn strip_marker(text: Seq<char>) -> Seq<char> {
    if text.len() > 0 && !is_digit(text[0]) {
        text.skip(1)
    } else {
        text
    }
}

/// Drops one leading marker character, such as the `v` of `v1.2.3`. A text that
/// is empty or starts with a digit is returned as it is.
pub fn without_marker(text: &str) -> (rest: &str)
    ensures
        rest@ == strip_marker(text@),
{
    let length: usize = text.unicode_len();
    if length > 0 && !char_is_digit(text.get_char(0)) {
        let rest = text.substring_char(1, length);
        assert(rest@ =~= text@.skip(1));
        rest
    } else {
        text
    }
}

impl SemanticVersion {
    /// `self` comes strictly before `other`.
    pub open spec fn is_before(self, other: SemanticVersion) -> bool {
        self.major < other.major || (self.major == other.major && (self.minor < other.minor || (
        self.minor == other.minor && self.patch < other.patch)))
    }

    /// The version that stands for "could not be determined".
    pub open spec fn spec_sentinel() -> SemanticVersion {
        SemanticVersion { major: 0, minor: 0, patch: 0 }
    }

    /// The oldest version of the target service that is supported.
    pub open spec fn spec_minimum_supported() -> SemanticVersion {
        SemanticVersion { major: 0, minor: 107, patch: 29 }
    }

    /// `self` written as `major.minor.patch`.
    pub open spec fn text(self) -> Seq<char> {
        decimal(self.major as nat) + seq!['.'] + decimal(self.minor as nat) + seq!['.'] + decimal(
            self.patch as nat,
        )
    }

    /// The version that `text` writes, if it writes one.
    pub open spec fn parsed(text: Seq<char>) -> Parsed {
        if is_version_text(text) {
            Ok(choose|version: SemanticVersion| #[trigger] version.text() == text)
        } else {
            Err(UnparsableVersion)
        }
    }

    /// The version that a service reports with `text`, which may start with a
    /// marker.
    pub open spec fn parsed_reported(text: Seq<char>) -> Parsed {
        Self::parsed(strip_marker(text))
    }

    /// The version that `text` writes, or the sentinel where it writes none.
    pub open spec fn parsed_or_sentinel(text: Seq<char>) -> SemanticVersion {
        match Self::parsed(text) {
            Ok(version) => version,
            Err(_) => Self::spec_sentinel(),
        }
    }

    pub fn new(major: u64, minor: u64, patch: u64) -> (version: SemanticVersion)
        ensures
            version == (SemanticVersion { major, minor, patch }),
    {
        SemanticVersion { major, minor, patch }
    }

    /// `0.0.0`, which stands for a version that could not be determined.
    #[verifier::when_used_as_spec(spec_sentinel)]
    pub fn sentinel() -> (version: SemanticVersion)
        ensures
            version == Self::spec_sentinel(),
    {
        SemanticVersion { major: 0, minor: 0, patch: 0 }
    }

    /// `0.107.29`, the floor below which the target service is rejected.
    #[verifier::when_used_as_spec(spec_minimum_supported)]
    pub fn minimum_supported() -> (version: SemanticVersion)
        ensures
            version == Self::spec_minimum_supported(),
    {
        SemanticVersion { major: 0, minor: 107, patch: 29 }
    }

    /// Tells whether `self` comes strictly before `other`.
    pub fn precedes(&self, other: &SemanticVersion) -> (before: bool)
        ensures
            before == self.is_before(*other),
    {
        if self.major != other.major {
            self.major < other.major
        } else if self.minor != other.minor {
            self.minor < other.minor
        } else {
            self.patch < other.patch
        }
    }

    /// Tells whether this is the sentinel `0.0.0`.
    pub fn is_sentinel(&self) -> (unknown: bool)
        ensures
            unknown == (*self == Self::spec_sentinel()),
    {
        self.major == 0 && self.minor == 0 && self.patch == 0
    }

    /// The version that parsed fields stand for. Fields with a pre-release or
    /// build suffix stand for none.
    pub fn from_fields(fields: &VersionFields) -> (version: Parsed)
        ensures
            version == fields@.plain_version(),
    {
        if fields.pre.as_str().is_empty() && fields.build.as_str().is_empty() {
            Ok(SemanticVersion { major: fields.major, minor: fields.minor, patch: fields.patch })
        } else {
            Err(UnparsableVersion)
        }
    }

    /// Reads a version from `text`. It succeeds exactly if `text` is three
    /// numbers up to `u64::MAX` in base ten, without leading zeros, joined by
    /// dots; the result is then the version so written.
    pub fn parse(text: &str) -> (version: Parsed)
        ensures
            version == Self::parsed(text@),
            version matches Ok(v) ==> text@ == v.text(),
            version is Err ==> !is_version_text(text@),
    {
        match read_semver(text) {
            Some(fields) => {
                let version = Self::from_fields(&fields);
                proof {
                    if let Ok(v) = version {
                        lemma_parsed_written(v);
                    }
                }
                version
            },
            None => Err(UnparsableVersion),
        }
    }

    /// Reads a version as a service reports it: a single leading character that
    /// is not a digit is dropped before the rest is read.
    pub fn parse_reported(text: &str) -> (version: Parsed)
        ensures
            version == Self::parsed_reported(text@),
            version matches Ok(v) ==> strip_marker(text@) == v.text(),
    {
        Self::parse(without_marker(text))
    }

    /// Reads a version from `text`, and gives the sentinel where it cannot be
    /// read.
    pub fn parse_or_sentinel(text: &str) -> (version: SemanticVersion)
        ensures
            version == Self::parsed_or_sentinel(text@),
    {
        match Self::parse(text) {
            Ok(v) => v,
            Err(_) => Self::sentinel(),
        }
    }

    /// Writes the version as `major.minor.patch`.
    pub fn to_text(&self) -> (text: String)
        ensures
            text@ == self.text(),
    {
        proof {
            reveal_strlit(".");
        }
        let mut text = decimal_text(self.major);
        text.append(".");
        text.append(decimal_text(self.minor).as_str());
        text.append(".");
        text.append(decimal_text(self.patch).as_str());
        assert(text@ =~= self.text());
        text
    }
}

/// Of two versions exactly one holds: the first comes before the second, they
/// are equal, or the second comes before the first.
pub proof fn lemma_order_total(a: SemanticVersion, b: SemanticVersion)
    ensures
        a.is_before(b) || a == b || b.is_before(a),
        !(a.is_before(b) && a == b),
        !(a.is_before(b) && b.is_before(a)),
        !(a == b && b.is_before(a)),
{
}

/// The order is transitive.
pub proof fn lemma_order_transitive(a: SemanticVersion, b: SemanticVersion, c: SemanticVersion)
    requires
        a.is_before(b),
        b.is_before(c),
    ensures
        a.is_before(c),
{
}

/// A text that starts with digits and a dot can be cut there in one way only.
proof fn lemma_cut_at_dot(a: Seq<char>, rest_a: Seq<char>, b: Seq<char>, rest_b: Seq<char>)
    requires
        all_digits(a),
        all_digits(b),
        a + seq!['.'] + rest_a == b + seq!['.'] + rest_b,
    ensures
        a == b,
        rest_a == rest_b,
{
    let left = a + seq!['.'] + rest_a;
    let right = b + seq!['.'] + rest_b;
    if a.len() < b.len() {
        assert(left[a.len() as int] == '.');
        assert(right[a.len() as int] == b[a.len() as int]);
    } else if b.len() < a.len() {
        assert(right[b.len() as int] == '.');
        assert(left[b.len() as int] == a[b.len() as int]);
    } else {
        assert(a =~= left.take(a.len() as int));
        assert(b =~= right.take(a.len() as int));
        assert(rest_a =~= left.skip(a.len() as int + 1));
        assert(rest_b =~= right.skip(a.len() as int + 1));
    }
}

/// Two versions that are written alike are the same version.
pub proof fn lemma_text_injective(a: SemanticVersion, b: SemanticVersion)
    requires
        a.text() == b.text(),
    ensures
        a == b,
{
    let dot = seq!['.'];
    lemma_decimal_digits(a.major as nat);
    lemma_decimal_digits(a.minor as nat);
    lemma_decimal_digits(b.major as nat);
    lemma_decimal_digits(b.minor as nat);
    let tail_a = decimal(a.minor as nat) + dot + decimal(a.patch as nat);
    let tail_b = decimal(b.minor as nat) + dot + decimal(b.patch as nat);
    assert(a.text() =~= decimal(a.major as nat) + dot + tail_a);
    assert(b.text() =~= decimal(b.major as nat) + dot + tail_b);
    lemma_cut_at_dot(decimal(a.major as nat), tail_a, decimal(b.major as nat), tail_b);
    lemma_cut_at_dot(
        decimal(a.minor as nat),
        decimal(a.patch as nat),
        decimal(b.minor as nat),
        decimal(b.patch as nat),
    );
    lemma_decimal_injective(a.major as nat, b.major as nat);
    lemma_decimal_injective(a.minor as nat, b.minor as nat);
    lemma_decimal_injective(a.patch as nat, b.patch as nat);
}

/// A version that is written out and read again is the same version.
pub proof fn lemma_parsed_written(version: SemanticVersion)
    ensures
        SemanticVersion::parsed(version.text()) == Parsed::Ok(version),
{
    let found = choose|other: SemanticVersion| #[trigger] other.text() == version.text();
    lemma_text_injective(found, version);
}

/// A text reads as a version exactly if it is that version written out.
pub proof fn lemma_parsed_iff_written(text: Seq<char>, version: SemanticVersion)
    ensures
        SemanticVersion::parsed(text) == Parsed::Ok(version) <==> text == version.text(),
{
    if text == version.text() {
        lemma_parsed_written(version);
    }
}

/// A service may put one marker in front of its version or none: both reports
/// are read as the same version.
pub proof fn lemma_marker_is_optional(version: SemanticVersion, marker: char)
    requires
        !is_digit(marker),
    ensures
        SemanticVersion::parsed_reported(version.text()) == Parsed::Ok(version),
        SemanticVersion::parsed_reported(seq![marker] + version.text()) == Parsed::Ok(version),
{
    lemma_decimal_digits(version.major as nat);
    assert(version.text()[0] == decimal(version.major as nat)[0]);
    assert((seq![marker] + version.text()).skip(1) =~= version.text());
    lemma_parsed_written(version);
}

} // verus!
