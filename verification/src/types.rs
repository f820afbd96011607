//! Core data model: package references, versions, and the tracked-file
//! ledger entries that make installations reversible.
//!
//! The textual form of a reference is `namespace-name-major.minor.patch`.
//! Parsing splits from the right on `-`, because the namespace (and, in
//! malformed inputs, the name) may itself contain `-`; a version is three
//! dot-separated non-negative integers. Both directions are verified
//! against the spec-level parsers below, and the round-trip laws at the
//! end of this module prove that parsing inverts formatting.

use vstd::prelude::*;

use crate::numerals::dec_digits;
use crate::numerals::digits_val;
use crate::numerals::is_dec_digit;
use crate::numerals::lemma_dec_digits_are_digits;
use crate::numerals::lemma_digits_val_of_dec_digits;
use crate::numerals::parse_u32;
use crate::numerals::u32_to_string;
use crate::numerals::valid_u32_digits;
use crate::text::find_char;
use crate::text::rfind_char;
use crate::text::spec_find_char;
use crate::text::spec_rfind_char;

verus! {

/// What an installation did to one path.
#[derive(Clone, Copy, Debug, PartialEq, Eq, Structural)]
pub enum FileAction {
    Create,
    Remove,
    Modify,
}

/// One ledger entry: an action, the absolute path it touched, and an
/// opaque context string reserved for future use (currently always absent).
#[derive(Clone, Debug, PartialEq, Eq)]
pub struct TrackedFile {
    pub action: FileAction,
    pub path: String,
    pub context: Option<String>,
}

/// Three non-negative integers, ordered lexicographically.
#[derive(Clone, Copy, Debug, PartialEq, Eq, Structural)]
pub struct Version {
    pub major: u32,
    pub minor: u32,
    pub patch: u32,
}

#[derive(Clone, Copy, Debug, PartialEq, Eq, Structural)]
pub enum VersionParseError {
    /// A dot-separated segment is not a decimal `u32`.
    IntParse,
    /// Fewer than two dots: the count carried is the number of dots seen.
    DotCount(usize),
}

/// Identity of a package: `namespace`, `name`, and a version.
#[derive(Clone, Debug, PartialEq, Eq)]
pub struct PackageReference {
    pub namespace: String,
    pub name: String,
    pub version: Version,
}

#[derive(Clone, Copy, Debug, PartialEq, Eq, Structural)]
pub enum PackageReferenceParseError {
    /// Splitting from the right on `-` gave fewer than three sections.
    NumSections { expected: usize, got: usize },
    /// The trailing section is not a valid version.
    VersionParseFail(VersionParseError),
}

/// The canonical text of a version: `major.minor.patch`.
pub open spec fn spec_version_str(v: Version) -> Seq<char> {
    dec_digits(v.major as nat) + seq!['.'] + dec_digits(v.minor as nat) + seq!['.'] + dec_digits(
        v.patch as nat,
    )
}

/// The canonical text of a reference: `namespace-name-major.minor.patch`.
pub open spec fn spec_package_ref_str(namespace: Seq<char>, name: Seq<char>, v: Version) -> Seq<
    char,
> {
    namespace + seq!['-'] + name + seq!['-'] + spec_version_str(v)
}

/// What parsing a version text yields. The text is split on at most the
/// first two dots; every section must be a decimal `u32`; with fewer than
/// three sections the dot count is reported.
pub open spec fn spec_parse_version(s: Seq<char>) -> Result<Version, VersionParseError> {
    match spec_find_char(s, '.') {
        None => if valid_u32_digits(s) {
            Err(VersionParseError::DotCount(0))
        } else {
            Err(VersionParseError::IntParse)
        },
        Some(i) => {
            let p1 = s.subrange(0, i);
            let rest = s.subrange(i + 1, s.len() as int);
            match spec_find_char(rest, '.') {
                None => if valid_u32_digits(p1) && valid_u32_digits(rest) {
                    Err(VersionParseError::DotCount(1))
                } else {
                    Err(VersionParseError::IntParse)
                },
                Some(j) => {
                    let p2 = rest.subrange(0, j);
                    let p3 = rest.subrange(j + 1, rest.len() as int);
                    if valid_u32_digits(p1) && valid_u32_digits(p2) && valid_u32_digits(p3) {
                        Ok(
                            Version {
                                major: digits_val(p1) as u32,
                                minor: digits_val(p2) as u32,
                                patch: digits_val(p3) as u32,
                            },
                        )
                    } else {
                        Err(VersionParseError::IntParse)
                    }
                },
            }
        },
    }
}

/// The fields a reference text parses into, at the spec level.
pub ghost struct PackageRefParts {
    pub namespace: Seq<char>,
    pub name: Seq<char>,
    pub version: Version,
}

/// What parsing a reference text yields: split from the right on `-` into
/// version, name, namespace; too few sections or a bad trailing version
/// fail.
pub open spec fn spec_parse_package_ref(s: Seq<char>) -> Result<
    PackageRefParts,
    PackageReferenceParseError,
> {
    match spec_rfind_char(s, '-') {
        None => Err(PackageReferenceParseError::NumSections { expected: 3, got: 0 }),
        Some(j) => match spec_rfind_char(s.subrange(0, j), '-') {
            None => Err(PackageReferenceParseError::NumSections { expected: 3, got: 1 }),
            Some(i) => match spec_parse_version(s.subrange(j + 1, s.len() as int)) {
                Err(e) => Err(PackageReferenceParseError::VersionParseFail(e)),
                Ok(v) => Ok(
                    PackageRefParts {
                        namespace: s.subrange(0, i),
                        name: s.subrange(i + 1, j),
                        version: v,
                    },
                ),
            },
        },
    }
}

impl Version {
    /// Parse `major.minor.patch`.
    pub fn from_str(s: &str) -> (r: Result<Version, VersionParseError>)
        ensures
            r == spec_parse_version(s@),
    {
        let n = s.unicode_len();
        match find_char(s, '.') {
            None => {
                match parse_u32(s) {
                    Some(_) => Err(VersionParseError::DotCount(0)),
                    None => Err(VersionParseError::IntParse),
                }
            },
            Some(i) => {
                proof {
                    crate::text::lemma_find_char_spec(s@, '.');
                }
                let p1 = s.substring_char(0, i);
                let rest = s.substring_char(i + 1, n);
                match find_char(rest, '.') {
                    None => {
                        let a = parse_u32(p1);
                        let b = parse_u32(rest);
                        if a.is_some() && b.is_some() {
                            Err(VersionParseError::DotCount(1))
                        } else {
                            Err(VersionParseError::IntParse)
                        }
                    },
                    Some(j) => {
                        proof {
                            crate::text::lemma_find_char_spec(rest@, '.');
                        }
                        let m = rest.unicode_len();
                        let p2 = rest.substring_char(0, j);
                        let p3 = rest.substring_char(j + 1, m);
                        let a = parse_u32(p1);
                        let b = parse_u32(p2);
                        let c = parse_u32(p3);
                        match (a, b, c) {
                            (Some(major), Some(minor), Some(patch)) => Ok(
                                Version { major, minor, patch },
                            ),
                            _ => Err(VersionParseError::IntParse),
                        }
                    },
                }
            },
        }
    }

    /// Render as `major.minor.patch`.
    pub fn to_display_string(&self) -> (r: String)
        ensures
            r@ == spec_version_str(*self),
    {
        proof {
            reveal_strlit(".");
        }
        let r = u32_to_string(self.major);
        let r = r.concat(".");
        let r = r.concat(u32_to_string(self.minor).as_str());
        let r = r.concat(".");
        let r = r.concat(u32_to_string(self.patch).as_str());
        proof {
            assert(r@ =~= spec_version_str(*self));
        }
        r
    }
}

impl PackageReference {
    /// The `namespace-name` pair that keys a package's namespaced folders.
    pub fn full_name(&self) -> (r: String)
        ensures
            r@ == self.namespace@ + "-"@ + self.name@,
    {
        let r = self.namespace.clone();
        let r = r.concat("-");
        let r = r.concat(self.name.as_str());
        r
    }

    /// Parse `namespace-name-major.minor.patch`, splitting from the right.
    pub fn from_str(s: &str) -> (r: Result<PackageReference, PackageReferenceParseError>)
        ensures
            match r {
                Ok(p) => spec_parse_package_ref(s@) == Ok::<
                    PackageRefParts,
                    PackageReferenceParseError,
                >(
                    PackageRefParts { namespace: p.namespace@, name: p.name@, version: p.version },
                ),
                Err(e) => spec_parse_package_ref(s@) == Err::<
                    PackageRefParts,
                    PackageReferenceParseError,
                >(e),
            },
    {
        let n = s.unicode_len();
        match rfind_char(s, '-') {
            None => Err(PackageReferenceParseError::NumSections { expected: 3, got: 0 }),
            Some(j) => {
                proof {
                    crate::text::lemma_rfind_char_spec(s@, '-');
                }
                let head = s.substring_char(0, j);
                match rfind_char(head, '-') {
                    None => Err(PackageReferenceParseError::NumSections { expected: 3, got: 1 }),
                    Some(i) => {
                        proof {
                            crate::text::lemma_rfind_char_spec(head@, '-');
                        }
                        let version_part = s.substring_char(j + 1, n);
                        match Version::from_str(version_part) {
                            Err(e) => Err(PackageReferenceParseError::VersionParseFail(e)),
                            Ok(version) => {
                                let namespace = String::from_str(s.substring_char(0, i));
                                let name = String::from_str(s.substring_char(i + 1, j));
                                Ok(PackageReference { namespace, name, version })
                            },
                        }
                    },
                }
            },
        }
    }

    /// Render as `namespace-name-major.minor.patch`.
    pub fn to_display_string(&self) -> (r: String)
        ensures
            r@ == spec_package_ref_str(self.namespace@, self.name@, self.version),
    {
        proof {
            reveal_strlit("-");
        }
        let r = self.full_name();
        let r = r.concat("-");
        let r = r.concat(self.version.to_display_string().as_str());
        proof {
            assert(r@ =~= spec_package_ref_str(self.namespace@, self.name@, self.version));
        }
        r
    }
}

/// Every character of a version's text is a decimal digit or a dot.
pub proof fn lemma_version_str_chars(v: Version)
    ensures
        forall|i: int|
            0 <= i < spec_version_str(v).len() ==> is_dec_digit(#[trigger] spec_version_str(v)[i])
                || spec_version_str(v)[i] == '.',
{
    let d1 = dec_digits(v.major as nat);
    let d2 = dec_digits(v.minor as nat);
    let d3 = dec_digits(v.patch as nat);
    lemma_dec_digits_are_digits(v.major as nat);
    lemma_dec_digits_are_digits(v.minor as nat);
    lemma_dec_digits_are_digits(v.patch as nat);
    let s = spec_version_str(v);
    assert forall|i: int| 0 <= i < s.len() implies is_dec_digit(#[trigger] s[i]) || s[i]
        == '.' by {
        if i < d1.len() {
            assert(s[i] == d1[i]);
        } else if i == d1.len() {
            assert(s[i] == '.');
        } else if i < d1.len() + 1 + d2.len() {
            assert(s[i] == d2[i - d1.len() - 1]);
        } else if i == d1.len() + 1 + d2.len() {
            assert(s[i] == '.');
        } else {
            assert(s[i] == d3[i - d1.len() - d2.len() - 2]);
        }
    }
}

/// Law: a version survives the round trip through its text.
/// For every version `v`, parsing `major.minor.patch` yields `v` back.
pub proof fn lemma_version_round_trip(v: Version)
    ensures
        spec_parse_version(spec_version_str(v)) == Ok::<Version, VersionParseError>(v),
{
    let d1 = dec_digits(v.major as nat);
    let d2 = dec_digits(v.minor as nat);
    let d3 = dec_digits(v.patch as nat);
    lemma_dec_digits_are_digits(v.major as nat);
    lemma_dec_digits_are_digits(v.minor as nat);
    lemma_dec_digits_are_digits(v.patch as nat);
    lemma_digits_val_of_dec_digits(v.major as nat);
    lemma_digits_val_of_dec_digits(v.minor as nat);
    lemma_digits_val_of_dec_digits(v.patch as nat);
    let s = spec_version_str(v);
    assert(!is_dec_digit('.'));
    assert(s[d1.len() as int] == '.');
    assert forall|j: int| 0 <= j < d1.len() implies s[j] != '.' by {
        assert(s[j] == d1[j]);
    }
    crate::text::lemma_find_char_unique(s, '.', d1.len() as int);
    let p1 = s.subrange(0, d1.len() as int);
    assert(p1 =~= d1);
    let rest = s.subrange(d1.len() as int + 1, s.len() as int);
    assert(rest =~= d2 + seq!['.'] + d3);
    assert(rest[d2.len() as int] == '.');
    assert forall|j: int| 0 <= j < d2.len() implies rest[j] != '.' by {
        assert(rest[j] == d2[j]);
    }
    crate::text::lemma_find_char_unique(rest, '.', d2.len() as int);
    let p2 = rest.subrange(0, d2.len() as int);
    assert(p2 =~= d2);
    let p3 = rest.subrange(d2.len() as int + 1, rest.len() as int);
    assert(p3 =~= d3);
}

/// Law: a package reference whose name is free of `-` survives the round
/// trip through its text. The namespace may itself contain `-`: splitting
/// from the right keeps it intact.
pub proof fn lemma_package_ref_round_trip(namespace: Seq<char>, name: Seq<char>, v: Version)
    requires
        !name.contains('-'),
    ensures
        spec_parse_package_ref(spec_package_ref_str(namespace, name, v)) == Ok::<
            PackageRefParts,
            PackageReferenceParseError,
        >(PackageRefParts { namespace, name, version: v }),
{
    let vc = spec_version_str(v);
    lemma_version_str_chars(v);
    let s = spec_package_ref_str(namespace, name, v);
    let j = namespace.len() as int + 1 + name.len() as int;
    assert(!is_dec_digit('-'));
    assert(s[j] == '-');
    assert forall|k: int| j < k < s.len() implies s[k] != '-' by {
        assert(s[k] == vc[k - j - 1]);
    }
    crate::text::lemma_rfind_char_unique(s, '-', j);
    let head = s.subrange(0, j);
    assert(head =~= namespace + seq!['-'] + name);
    let i = namespace.len() as int;
    assert(head[i] == '-');
    assert forall|k: int| i < k < head.len() implies head[k] != '-' by {
        assert(head[k] == name[k - i - 1]);
        assert(!name.contains('-'));
        assert(name[k - i - 1] != '-');
    }
    crate::text::lemma_rfind_char_unique(head, '-', i);
    let version_part = s.subrange(j + 1, s.len() as int);
    assert(version_part =~= vc);
    lemma_version_round_trip(v);
    assert(s.subrange(0, i) =~= namespace);
    assert(s.subrange(i + 1, j) =~= name);
}

/// The identity this installer reports for itself.
pub fn installer_identity() -> (r: PackageReference)
    ensures
        r.namespace@ == "metherul"@,
        r.name@ == "bepinex_installer"@,
        r.version == (Version { major: 1, minor: 0, patch: 0 }),
{
    PackageReference {
        namespace: String::from_str("metherul"),
        name: String::from_str("bepinex_installer"),
        version: Version { major: 1, minor: 0, patch: 0 },
    }
}

/// The request/response protocol version this installer speaks.
pub fn protocol_version() -> (r: Version)
    ensures
        r == (Version { major: 1, minor: 0, patch: 0 }),
{
    Version { major: 1, minor: 0, patch: 0 }
}

} // verus!

