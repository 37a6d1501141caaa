//! Version numbers and the metadata of a mod's `everest.yaml`.
use vstd::prelude::*;

use std::num::ParseIntError;

use crate::utils::keyed::put;
use crate::utils::text::{chars_of, decimal, decimal_text, push_char, push_str, str_eq, string_from_chars};
use crate::utils::yaml::{entries_view, lemma_yamls_view, mapping_get, mapping_put, yamls_view, Yaml, YamlParseError, YamlV};

verus! {

/// `std::num::ParseIntError`, why text is not a number.
#[verifier::external_type_specification]
#[verifier::external_body]
pub struct ExParseIntError(ParseIntError);

/// `ParseIntError::clone` from std: the error derives `Clone`, which copies
/// its one field, so the copy is the same error.
pub assume_specification[ <ParseIntError as Clone>::clone ](e: &ParseIntError) -> (r: ParseIntError)
    ensures
        r == *e,
;

/// Whether `c` is a decimal digit.
pub open spec fn is_digit(c: char) -> bool {
    '0' <= c <= '9'
}

/// The number that the decimal digits `s` spell.
pub open spec fn digits_value(s: Seq<char>) -> nat
    decreases s.len(),
{
    if s.len() == 0 {
        0
    } else {
        digits_value(s.drop_last()) * 10 + ((s.last() as u32) - ('0' as u32)) as nat
    }
}

/// The `u16` that `s` spells in the form `u16::from_str` accepts: an
/// optional `+`, then one or more decimal digits, for a value that fits.
pub open spec fn u16_text(s: Seq<char>) -> Option<u16> {
    let d = if s.len() > 0 && s[0] == '+' {
        s.drop_first()
    } else {
        s
    };
    if d.len() > 0 && (forall|i: int| 0 <= i < d.len() ==> is_digit(#[trigger] d[i])) && digits_value(d)
        <= u16::MAX {
        Some(digits_value(d) as u16)
    } else {
        None
    }
}

/// `u16::from_str` from std: the number the text spells, or an error when
/// the text is not an optional `+` followed by decimal digits of a value
/// that fits in 16 bits. Which kind of error comes back is not stated.
#[verifier::external_body]
fn parse_u16(s: &str) -> (r: Result<u16, ParseIntError>)
    ensures
        match r {
            Ok(v) => u16_text(s@) == Some(v),
            Err(_) => u16_text(s@) is None,
        },
{
    s.parse::<u16>()
}

/// The `u8` that `s` spells in the form `u8::from_str` accepts: an
/// optional `+`, then one or more decimal digits, for a value that fits.
pub open spec fn u8_text(s: Seq<char>) -> Option<u8> {
    let d = if s.len() > 0 && s[0] == '+' {
        s.drop_first()
    } else {
        s
    };
    if d.len() > 0 && (forall|i: int| 0 <= i < d.len() ==> is_digit(#[trigger] d[i])) && digits_value(d)
        <= u8::MAX {
        Some(digits_value(d) as u8)
    } else {
        None
    }
}

/// `u8::from_str` from std: the number the text spells, or an error when
/// the text is not an optional `+` followed by decimal digits of a value
/// that fits in 8 bits. Which kind of error comes back is not stated.
#[verifier::external_body]
pub(crate) fn parse_u8(s: &str) -> (r: Result<u8, ParseIntError>)
    ensures
        match r {
            Ok(v) => u8_text(s@) == Some(v),
            Err(_) => u8_text(s@) is None,
        },
{
    s.parse::<u8>()
}

#[derive(PartialEq, Eq, Clone, Copy, Debug, PartialOrd, Ord, Structural)]
/// A (Semantic Versioning)[https://semver.org/]-respecting version number
///
/// Minor or patch being `None` means they should be treated as wildcards.
/// Versions are ordered by major, then minor, then patch, a wildcard
/// before any number.
pub struct Version {
    pub major: u16,
    pub minor: Option<u16>,
    pub patch: Option<u16>,
}

/// `a >= b` for optional numbers, where nothing is below every number.
pub open spec fn opt_ge(a: Option<u16>, b: Option<u16>) -> bool {
    match (a, b) {
        (_, None) => true,
        (None, Some(_)) => false,
        (Some(x), Some(y)) => x >= y,
    }
}

/// Whether the minor and patch of `s` satisfy those a dependency `d` asks
/// for: any where `d`'s minor is a wildcard; otherwise a higher minor, or the
/// same minor with a patch at least `d`'s (any where `d`'s patch is a
/// wildcard).
pub open spec fn minor_patch_satisfy(s: Version, d: Version) -> bool {
    match d.minor {
        None => true,
        Some(dm) => match s.minor {
            None => false,
            Some(sm) => sm > dm || (sm == dm && opt_ge(s.patch, d.patch)),
        },
    }
}

impl Version {
    /// Checks if the [Version] matches some semver expression.
    ///
    /// Assumes `self` has no wildcards in it.<br>
    /// Useful for checking if a version matches a dependency: the major
    /// versions must be equal, and `self` must be at least the dependency's
    /// version in its minor and patch, wildcards matching anything.
    pub fn matches(&self, other: &Self) -> (r: bool)
        ensures
            r == (self.major == other.major && minor_patch_satisfy(*self, *other)),
    {
        if self.major != other.major {
            return false;
        }
        match (other.minor, self.minor) {
            (None, _) => true,
            (Some(_), None) => false,
            (Some(dm), Some(sm)) => sm > dm || (sm == dm && opt_ge_exec(self.patch, other.patch)),
        }
    }
}

fn opt_ge_exec(a: Option<u16>, b: Option<u16>) -> (r: bool)
    ensures
        r == opt_ge(a, b),
{
    match (a, b) {
        (_, None) => true,
        (None, Some(_)) => false,
        (Some(x), Some(y)) => x >= y,
    }
}

#[derive(Debug, Clone)]
pub enum VersionParseError {
    WildcardMajor,
    NoMajorVersion,
    NoMinorVersion,
    InvalidInt(ParseIntError),
}

/// Why text is not a version.
pub enum VersionFailure {
    WildcardMajor,
    NoMinorVersion,
    InvalidInt,
}

/// The text before the first `.`, and what follows it if there is one.
pub open spec fn dot_split(s: Seq<char>) -> (Seq<char>, Option<Seq<char>>) {
    if exists|i: int| 0 <= i < s.len() && s[i] == '.' {
        let i = choose|i: int| 0 <= i < s.len() && s[i] == '.' && forall|j: int| 0 <= j < i ==> s[j] != '.';
        (s.subrange(0, i), Some(s.subrange(i + 1, s.len() as int)))
    } else {
        (s, None)
    }
}

/// A version part: `*` for a wildcard, or a number.
pub open spec fn part_value(p: Seq<char>) -> Result<Option<u16>, VersionFailure> {
    if p == seq!['*'] {
        Ok(None)
    } else {
        match u16_text(p) {
            Some(v) => Ok(Some(v)),
            None => Err(VersionFailure::InvalidInt),
        }
    }
}

/// Reading a version from text: the parts before the first three dots (any
/// further parts are ignored); the major part must be a number, the minor
/// part must be there, and a missing patch part counts as 0.
pub open spec fn version_parse(s: Seq<char>) -> Result<Version, VersionFailure> {
    let (p0, r0) = dot_split(s);
    if p0 == seq!['*'] {
        Err(VersionFailure::WildcardMajor)
    } else {
        match u16_text(p0) {
            None => Err(VersionFailure::InvalidInt),
            Some(major) => match r0 {
                None => Err(VersionFailure::NoMinorVersion),
                Some(t) => {
                    let (p1, r1) = dot_split(t);
                    match part_value(p1) {
                        Err(e) => Err(e),
                        Ok(minor) => match r1 {
                            None => Ok(Version { major, minor, patch: Some(0) }),
                            Some(u) => match part_value(dot_split(u).0) {
                                Err(e) => Err(e),
                                Ok(patch) => Ok(Version { major, minor, patch }),
                            },
                        },
                    }
                },
            },
        }
    }
}

/// The text of a version part: `*` for a wildcard.
pub open spec fn part_text(p: Option<u16>) -> Seq<char> {
    match p {
        Some(v) => decimal(v as nat),
        None => seq!['*'],
    }
}

/// The text of a version: its three parts joined by dots.
pub open spec fn version_text(v: Version) -> Seq<char> {
    decimal(v.major as nat) + seq!['.'] + part_text(v.minor) + seq!['.'] + part_text(v.patch)
}

/// Splits `s` at its first `.`.
fn split_dot(s: &Vec<char>) -> (r: (Vec<char>, Option<Vec<char>>))
    ensures
        r.0@ == dot_split(s@).0,
        match (r.1, dot_split(s@).1) {
            (Some(a), Some(b)) => a@ == b,
            (None, None) => true,
            _ => false,
        },
{
    let mut head: Vec<char> = Vec::new();
    let mut i: usize = 0;
    while i < s.len()
        invariant
            i <= s@.len(),
            head@ == s@.take(i as int),
            forall|j: int| 0 <= j < i ==> s@[j] != '.',
        decreases s@.len() - i,
    {
        if s[i] == '.' {
            let mut tail: Vec<char> = Vec::new();
            let mut k: usize = i + 1;
            while k < s.len()
                invariant
                    i < k <= s@.len(),
                    tail@ == s@.subrange(i + 1, k as int),
                decreases s@.len() - k,
            {
                tail.push(s[k]);
                k = k + 1;
                assert(tail@ =~= s@.subrange(i + 1, k as int));
            }
            proof {
                let c = choose|c: int| 0 <= c < s@.len() && s@[c] == '.' && forall|j: int| 0 <= j < c ==> s@[j] != '.';
                assert(s@[i as int] == '.' && forall|j: int| 0 <= j < i ==> s@[j] != '.');
                if c < i {
                } else if c > i {
                    assert(s@[i as int] != '.');
                }
                assert(head@ =~= s@.subrange(0, i as int));
            }
            return (head, Some(tail));
        }
        head.push(s[i]);
        i = i + 1;
        assert(head@ =~= s@.take(i as int));
    }
    assert(head@ =~= s@);
    (head, None)
}

/// Reads a version part: `*` for a wildcard, or a number.
fn parse_part(p: &Vec<char>) -> (r: Result<Option<u16>, VersionParseError>)
    ensures
        match part_value(p@) {
            Ok(v) => r == Ok::<Option<u16>, VersionParseError>(v),
            Err(_) => r matches Err(VersionParseError::InvalidInt(_)),
        },
{
    if p.len() == 1 && p[0] == '*' {
        assert(p@ =~= seq!['*']);
        return Ok(None);
    }
    assert(p@ != seq!['*']);
    let text = string_from_chars(p);
    match parse_u16(text.as_str()) {
        Ok(v) => Ok(Some(v)),
        Err(e) => Err(VersionParseError::InvalidInt(e)),
    }
}

impl Version {
    /// Reads a version from text such as `1.2.3`, `1.2` or `1.*`.
    pub fn from_str(s: &str) -> (r: Result<Version, VersionParseError>)
        ensures
            match version_parse(s@) {
                Ok(v) => r == Ok::<Version, VersionParseError>(v),
                Err(VersionFailure::WildcardMajor) => r matches Err(VersionParseError::WildcardMajor),
                Err(VersionFailure::NoMinorVersion) => r matches Err(VersionParseError::NoMinorVersion),
                Err(VersionFailure::InvalidInt) => r matches Err(VersionParseError::InvalidInt(_)),
            },
    {
        let cs = chars_of(s);
        let (p0, r0) = split_dot(&cs);
        if p0.len() == 1 && p0[0] == '*' {
            assert(p0@ =~= seq!['*']);
            return Err(VersionParseError::WildcardMajor);
        }
        assert(p0@ != seq!['*']);
        let major = match parse_u16(string_from_chars(&p0).as_str()) {
            Ok(v) => v,
            Err(e) => {
                return Err(VersionParseError::InvalidInt(e));
            },
        };
        let t = match r0 {
            Some(t) => t,
            None => {
                return Err(VersionParseError::NoMinorVersion);
            },
        };
        let (p1, r1) = split_dot(&t);
        let minor = parse_part(&p1)?;
        let patch = match r1 {
            None => Some(0),
            Some(u) => {
                let (p2, _) = split_dot(&u);
                parse_part(&p2)?
            },
        };
        Ok(Version { major, minor, patch })
    }

    /// The version as text: `major.minor.patch`, with `*` for wildcards.
    pub fn to_string(&self) -> (r: String)
        ensures
            r@ == version_text(*self),
    {
        let mut out = decimal_text(self.major as u64);
        push_char(&mut out, '.');
        match self.minor {
            Some(m) => push_str(&mut out, decimal_text(m as u64).as_str()),
            None => push_char(&mut out, '*'),
        }
        push_char(&mut out, '.');
        match self.patch {
            Some(p) => push_str(&mut out, decimal_text(p as u64).as_str()),
            None => push_char(&mut out, '*'),
        }
        proof {
            assert(out@ =~= version_text(*self));
        }
        out
    }
}

/// The decimal digits of a number are digits, and spell the number.
proof fn lemma_decimal(n: nat)
    ensures
        decimal(n).len() > 0,
        forall|i: int| 0 <= i < decimal(n).len() ==> is_digit(#[trigger] decimal(n)[i]),
        digits_value(decimal(n)) == n,
    decreases n,
{
    if n < 10 {
        let u = (n + ('0' as u32)) as u32;
        assert((u as char) as u32 == u);
        assert(decimal(n).drop_last() =~= Seq::<char>::empty());
        assert(digits_value(decimal(n)) == digits_value(Seq::<char>::empty()) * 10 + n);
    } else {
        lemma_decimal(n / 10);
        let d = decimal(n);
        let u = (n % 10 + ('0' as u32)) as u32;
        assert((u as char) as u32 == u);
        assert(d.drop_last() =~= decimal(n / 10));
        assert(d.last() == u as char);
        assert(n == (n / 10) * 10 + n % 10) by (nonlinear_arith);
        assert(digits_value(d) == digits_value(decimal(n / 10)) * 10 + n % 10);
        assert forall|i: int| 0 <= i < d.len() implies is_digit(#[trigger] d[i]) by {
            if i < d.len() - 1 {
                assert(d[i] == decimal(n / 10)[i]);
            }
        }
    }
}

/// Text with no dot splits into itself alone.
proof fn lemma_split_none(a: Seq<char>)
    requires
        forall|i: int| 0 <= i < a.len() ==> a[i] != '.',
    ensures
        dot_split(a) == (a, None::<Seq<char>>),
{
}

/// Text with no dot, a dot, then anything splits at that dot.
proof fn lemma_split_at(a: Seq<char>, b: Seq<char>)
    requires
        forall|i: int| 0 <= i < a.len() ==> a[i] != '.',
    ensures
        dot_split(a + seq!['.'] + b) == (a, Some(b)),
{
    let s = a + seq!['.'] + b;
    assert(s[a.len() as int] == '.');
    let c = choose|c: int| 0 <= c < s.len() && s[c] == '.' && forall|j: int| 0 <= j < c ==> s[j] != '.';
    if c < a.len() {
        assert(s[c] == a[c]);
    } else if c > a.len() {
        assert(s[a.len() as int] != '.');
    }
    assert(s.subrange(0, c) =~= a);
    assert(s.subrange(c + 1, s.len() as int) =~= b);
}

/// A version part's text reads back as the part, and holds no dot.
proof fn lemma_part(p: Option<u16>)
    ensures
        part_value(part_text(p)) == Ok::<Option<u16>, VersionFailure>(p),
        forall|i: int| 0 <= i < part_text(p).len() ==> part_text(p)[i] != '.',
{
    if let Some(v) = p {
        lemma_decimal(v as nat);
        let d = decimal(v as nat);
        assert(is_digit(d[0]));
        assert(d != seq!['*']) by {
            assert(d[0] != '*');
        }
        assert forall|i: int| 0 <= i < d.len() implies d[i] != '.' by {
            assert(is_digit(d[i]));
        }
    }
}

/// The text of a version reads back as that version.
pub proof fn lemma_version_roundtrip(v: Version)
    ensures
        version_parse(version_text(v)) == Ok::<Version, VersionFailure>(v),
{
    let m = decimal(v.major as nat);
    lemma_decimal(v.major as nat);
    assert(is_digit(m[0]));
    assert(m != seq!['*']) by {
        assert(m[0] != '*');
    }
    assert forall|i: int| 0 <= i < m.len() implies m[i] != '.' by {
        assert(is_digit(m[i]));
    }
    lemma_part(v.minor);
    lemma_part(v.patch);
    let a = part_text(v.minor);
    let b = part_text(v.patch);
    assert(version_text(v) =~= m + seq!['.'] + (a + seq!['.'] + b));
    lemma_split_at(m, a + seq!['.'] + b);
    lemma_split_at(a, b);
    lemma_split_none(b);
}

impl DeepView for Version {
    type V = Version;

    open spec fn deep_view(&self) -> Version {
        *self
    }
}

/// `ParseIntError`'s `Display` from std: the error's message. What it says
/// depends on the kind of error, which is not stated here.
#[verifier::external_body]
fn int_error_text(e: &ParseIntError) -> String {
    e.to_string()
}

/// The start of every message of a [VersionParseError].
pub open spec fn version_error_prefix() -> Seq<char> {
    "Version parse error: "@
}

impl VersionParseError {
    /// The error's message.
    pub fn message(&self) -> (r: String)
        ensures
            match self {
                VersionParseError::WildcardMajor => r@ == "Version parse error: Wildcard not allowed for major version"@,
                VersionParseError::NoMajorVersion => r@ == "Version parse error: No major version found"@,
                VersionParseError::NoMinorVersion => r@ == "Version parse error: No minor version found"@,
                VersionParseError::InvalidInt(_) => exists|t: Seq<char>| #[trigger] (version_error_prefix() + t) == r@,
            },
    {
        match self {
            VersionParseError::WildcardMajor => "Version parse error: Wildcard not allowed for major version".to_owned(),
            VersionParseError::NoMajorVersion => "Version parse error: No major version found".to_owned(),
            VersionParseError::NoMinorVersion => "Version parse error: No minor version found".to_owned(),
            VersionParseError::InvalidInt(e) => {
                let mut out = "Version parse error: ".to_owned();
                let t = int_error_text(e);
                push_str(&mut out, t.as_str());
                assert(version_error_prefix() + t@ == out@);
                out
            },
        }
    }
}

/// The metadata of a mod, as its `everest.yaml` gives it.
pub struct ModMeta {
    pub name: String,
    pub version: Version,
    pub dll: Option<String>,
    pub dependencies: Vec<(String, Option<Version>)>,
    pub optional_dependencies: Option<Vec<(String, Option<Version>)>>,
}

/// The value of a [ModMeta].
pub struct ModMetaV {
    pub name: Seq<char>,
    pub version: Version,
    pub dll: Option<Seq<char>>,
    pub dependencies: Seq<(Seq<char>, Option<Version>)>,
    pub optional_dependencies: Option<Seq<(Seq<char>, Option<Version>)>>,
}

impl View for ModMeta {
    type V = ModMetaV;

    open spec fn view(&self) -> ModMetaV {
        ModMetaV {
            name: self.name@,
            version: self.version,
            dll: match self.dll {
                Some(d) => Some(d@),
                None => None,
            },
            dependencies: self.dependencies.deep_view(),
            optional_dependencies: match self.optional_dependencies {
                Some(o) => Some(o.deep_view()),
                None => None,
            },
        }
    }
}

/// Why a mod's name and version could not be read.
pub enum NameVersionFailure {
    NoName,
    BadVersionKind,
    Version(VersionFailure),
}

/// A name and the version that `t` reads as.
pub open spec fn named_version(name: Seq<char>, t: Seq<char>) -> Result<(Seq<char>, Option<Version>), NameVersionFailure> {
    match version_parse(t) {
        Ok(v) => Ok((name, Some(v))),
        Err(f) => Err(NameVersionFailure::Version(f)),
    }
}

/// Reading a mod's name and, if it has one, its version: the name must be a
/// string, and the version a string or a floating-point number (as its text).
pub open spec fn name_version_read(y: YamlV) -> Result<(Seq<char>, Option<Version>), NameVersionFailure> {
    match mapping_get(y, "Name"@) {
        Some(YamlV::String(name)) => match mapping_get(y, "Version"@) {
            None => Ok((name, None)),
            Some(YamlV::Real(t)) => named_version(name, t),
            Some(YamlV::String(t)) => named_version(name, t),
            Some(_) => Err(NameVersionFailure::BadVersionKind),
        },
        _ => Err(NameVersionFailure::NoName),
    }
}

/// Whether `m` is the message for the failure.
pub open spec fn failure_message(f: NameVersionFailure, m: Seq<char>) -> bool {
    match f {
        NameVersionFailure::NoName => m == "everest.yaml mod definition found without a name"@,
        NameVersionFailure::BadVersionKind => m == "everest.yaml Version isn't a string or a float"@,
        NameVersionFailure::Version(VersionFailure::WildcardMajor) => m
            == "Version parse error: Wildcard not allowed for major version"@,
        NameVersionFailure::Version(VersionFailure::NoMinorVersion) => m == "Version parse error: No minor version found"@,
        NameVersionFailure::Version(VersionFailure::InvalidInt) => exists|t: Seq<char>|
            #[trigger] (version_error_prefix() + t) == m,
    }
}

/// Reading the names and versions of a list of dependencies, stopping at the first failure.
pub open spec fn deps_read(s: Seq<YamlV>) -> Result<Seq<(Seq<char>, Option<Version>)>, NameVersionFailure>
    decreases s.len(),
{
    if s.len() == 0 {
        Ok(Seq::empty())
    } else {
        match deps_read(s.drop_last()) {
            Err(f) => Err(f),
            Ok(a) => match name_version_read(s.last()) {
                Ok(x) => Ok(a.push(x)),
                Err(f) => Err(f),
            },
        }
    }
}

/// Why a mod's metadata could not be read.
pub enum MetaFailure {
    NameVersion(NameVersionFailure),
    NoVersion(Seq<char>),
    DependenciesNotList,
    Dependency(NameVersionFailure),
}

/// Whether `m` is the message for the failure.
pub open spec fn meta_failure_message(f: MetaFailure, m: Seq<char>) -> bool {
    match f {
        MetaFailure::NameVersion(g) => failure_message(g, m),
        MetaFailure::NoVersion(name) => m == "Mod '"@ + name + "' is missing version in everest.yaml"@,
        MetaFailure::DependenciesNotList => m == "Dependencies isn't a vec in everest.yaml"@,
        MetaFailure::Dependency(g) => failure_message(g, m),
    }
}

/// Reading a mod's metadata: its name and version (which it must have), its
/// `dll` if that is a string, its `Dependencies` (a list, when the key is
/// there) and its `OptionalDependencies` (when that is a list).
pub open spec fn mod_meta_read(y: YamlV) -> Result<ModMetaV, MetaFailure> {
    match name_version_read(y) {
        Err(f) => Err(MetaFailure::NameVersion(f)),
        Ok((name, None)) => Err(MetaFailure::NoVersion(name)),
        Ok((name, Some(version))) => {
            let dll = match mapping_get(y, "dll"@) {
                Some(YamlV::String(d)) => Some(d),
                _ => None,
            };
            let deps = match mapping_get(y, "Dependencies"@) {
                None => Ok(Seq::empty()),
                Some(YamlV::Sequence(s)) => match deps_read(s) {
                    Ok(d) => Ok(d),
                    Err(f) => Err(MetaFailure::Dependency(f)),
                },
                Some(_) => Err(MetaFailure::DependenciesNotList),
            };
            let opt = match mapping_get(y, "OptionalDependencies"@) {
                Some(YamlV::Sequence(s)) => match deps_read(s) {
                    Ok(o) => Ok(Some(o)),
                    Err(f) => Err(MetaFailure::Dependency(f)),
                },
                _ => Ok(None),
            };
            match deps {
                Err(e) => Err(e),
                Ok(dependencies) => match opt {
                    Err(e) => Err(e),
                    Ok(optional_dependencies) => Ok(
                        ModMetaV { name, version, dll, dependencies, optional_dependencies },
                    ),
                },
            }
        },
    }
}

/// A mapping with a name, and a version when there is one, put into it.
pub open spec fn name_version_put(m: Seq<(YamlV, YamlV)>, name: Seq<char>, v: Option<Version>) -> Seq<(YamlV, YamlV)> {
    let m = put(m, YamlV::String("Name"@), YamlV::String(name));
    match v {
        Some(v) => put(m, YamlV::String("Version"@), YamlV::String(version_text(v))),
        None => m,
    }
}

/// A mapping with each dependency's name and version put into it in turn.
pub open spec fn deps_put(m: Seq<(YamlV, YamlV)>, deps: Seq<(Seq<char>, Option<Version>)>) -> Seq<(YamlV, YamlV)>
    decreases deps.len(),
{
    if deps.len() == 0 {
        m
    } else {
        name_version_put(deps_put(m, deps.drop_last()), deps.last().0, deps.last().1)
    }
}

/// The document a mod's metadata is written as. Each list of dependencies is
/// written as one mapping, into which the name and version of each
/// dependency is put in turn, so that the last one's stay.
pub open spec fn mod_meta_written(v: ModMetaV) -> YamlV {
    let h = name_version_put(Seq::empty(), v.name, Some(v.version));
    let h = put(h, YamlV::String("Dependencies"@), YamlV::Mapping(deps_put(Seq::empty(), v.dependencies)));
    let h = put(
        h,
        YamlV::String("OptionalDependencies"@),
        YamlV::Mapping(
            match v.optional_dependencies {
                Some(o) => deps_put(Seq::empty(), o),
                None => Seq::empty(),
            },
        ),
    );
    let h = match v.dll {
        Some(d) => put(h, YamlV::String("DLL"@), YamlV::String(d)),
        None => h,
    };
    YamlV::Mapping(h)
}

/// Reads a version from the text of a node.
fn version_from_text(name: String, t: &str) -> (r: Result<(String, Option<Version>), YamlParseError>)
    ensures
        match named_version(name@, t@) {
            Ok((n, v)) => r matches Ok(x) && x.0@ == n && x.1 == v,
            Err(f) => r matches Err(YamlParseError::Custom(m)) && failure_message(f, m@),
        },
{
    match Version::from_str(t) {
        Ok(v) => Ok((name, Some(v))),
        Err(e) => Err(YamlParseError::Custom(e.message())),
    }
}

impl ModMeta {
    /// Reads a mod's name and, if it has one, its version.
    pub fn parse_name_version_from_yaml(yaml: &Yaml) -> (r: Result<(String, Option<Version>), YamlParseError>)
        ensures
            match name_version_read(yaml@) {
                Ok((n, v)) => r matches Ok(x) && x.0@ == n && x.1 == v,
                Err(f) => r matches Err(YamlParseError::Custom(m)) && failure_message(f, m@),
            },
    {
        let name = match yaml.as_mapping_get("Name") {
            Some(n) => match n.as_str() {
                Some(n) => n.to_owned(),
                None => {
                    return Err(YamlParseError::Custom("everest.yaml mod definition found without a name".to_owned()));
                },
            },
            None => {
                return Err(YamlParseError::Custom("everest.yaml mod definition found without a name".to_owned()));
            },
        };
        match yaml.as_mapping_get("Version") {
            None => Ok((name, None)),
            Some(y) => match y {
                Yaml::Real(t) => version_from_text(name, t.as_str()),
                Yaml::String(t) => version_from_text(name, t.as_str()),
                _ => Err(YamlParseError::Custom("everest.yaml Version isn't a string or a float".to_owned())),
            },
        }
    }

    /// Reads the names and versions of a list of dependencies.
    #[verifier::rlimit(40)]
    fn parse_dependencies(s: &Vec<Yaml>) -> (r: Result<Vec<(String, Option<Version>)>, YamlParseError>)
        ensures
            match deps_read(yamls_view(s@)) {
                Ok(d) => r matches Ok(x) && x.deep_view() == d,
                Err(f) => r matches Err(YamlParseError::Custom(m)) && failure_message(f, m@),
            },
    {
        let ghost sv = yamls_view(s@);
        proof {
            lemma_yamls_view(s@);
            assert(sv.take(0) =~= Seq::<YamlV>::empty());
        }
        let mut out: Vec<(String, Option<Version>)> = Vec::new();
        assert(out.deep_view() =~= Seq::empty());
        for i in 0..s.len()
            invariant
                sv == yamls_view(s@),
                sv.len() == s@.len(),
                forall|j: int| 0 <= j < s@.len() ==> #[trigger] sv[j] == s@[j]@,
                deps_read(sv.take(i as int)) == Ok::<_, NameVersionFailure>(out.deep_view()),
        {
            proof {
                lemma_deps_read_step(sv, i as int);
            }
            match ModMeta::parse_name_version_from_yaml(&s[i]) {
                Ok(x) => {
                    let ghost before = out.deep_view();
                    let ghost xv = x.deep_view();
                    proof {
                        lemma_version_deep_view(x.1);
                        assert(xv == (x.0@, x.1));
                    }
                    out.push(x);
                    proof {
                        assert(out.deep_view() =~= before.push(xv));
                    }
                },
                Err(e) => {
                    proof {
                        assert(deps_read(sv.take(i + 1)) is Err);
                        lemma_deps_read_stops(sv, i + 1);
                    }
                    return Err(e);
                },
            }
        }
        proof {
            assert(sv.take(sv.len() as int) =~= sv);
        }
        Ok(out)
    }

    /// Reads a mod's metadata from its document.
    pub fn parse_from_yaml(yaml: &Yaml) -> (r: Result<ModMeta, YamlParseError>)
        ensures
            match mod_meta_read(yaml@) {
                Ok(v) => r matches Ok(x) && x@ == v,
                Err(f) => r matches Err(YamlParseError::Custom(m)) && meta_failure_message(f, m@),
            },
    {
        let (name, version) = match ModMeta::parse_name_version_from_yaml(yaml) {
            Ok(x) => x,
            Err(e) => {
                return Err(e);
            },
        };
        let version = match version {
            Some(v) => v,
            None => {
                let mut m = "Mod '".to_owned();
                push_str(&mut m, name.as_str());
                push_str(&mut m, "' is missing version in everest.yaml");
                return Err(YamlParseError::Custom(m));
            },
        };
        let dll = match yaml.as_mapping_get("dll") {
            Some(d) => match d.as_str() {
                Some(d) => Some(d.to_owned()),
                None => None,
            },
            None => None,
        };
        let dependencies = if yaml.contains_mapping_key("Dependencies") {
            let d = match yaml.as_mapping_get("Dependencies") {
                Some(d) => d,
                None => {
                    return Err(YamlParseError::Custom("Dependencies isn't a vec in everest.yaml".to_owned()));
                },
            };
            match d.as_vec() {
                Some(s) => match ModMeta::parse_dependencies(s) {
                    Ok(x) => x,
                    Err(e) => {
                        return Err(e);
                    },
                },
                None => {
                    return Err(YamlParseError::Custom("Dependencies isn't a vec in everest.yaml".to_owned()));
                },
            }
        } else {
            let v: Vec<(String, Option<Version>)> = Vec::new();
            assert(v.deep_view() =~= Seq::empty());
            v
        };
        let optional_dependencies = match yaml.as_mapping_get("OptionalDependencies") {
            Some(o) => match o.as_vec() {
                Some(s) => match ModMeta::parse_dependencies(s) {
                    Ok(x) => Some(x),
                    Err(e) => {
                        return Err(e);
                    },
                },
                None => None,
            },
            None => None,
        };
        Ok(ModMeta { name, version, dll, dependencies, optional_dependencies })
    }

    /// Puts a name, and a version when there is one, into a mapping.
    pub fn name_version_to_yaml(name: &str, version: &Option<Version>, hash: &mut Vec<(Yaml, Yaml)>)
        ensures
            entries_view(final(hash)@) == name_version_put(entries_view(old(hash)@), name@, *version),
    {
        mapping_put(hash, "Name".to_owned(), Yaml::string(name.to_owned()));
        if let Some(v) = version {
            mapping_put(hash, "Version".to_owned(), Yaml::string(v.to_string()));
        }
    }

    /// Puts each dependency's name and version into a mapping in turn.
    fn dependencies_to_yaml(deps: &Vec<(String, Option<Version>)>, hash: &mut Vec<(Yaml, Yaml)>)
        ensures
            entries_view(final(hash)@) == deps_put(entries_view(old(hash)@), deps.deep_view()),
    {
        let ghost start = entries_view(hash@);
        let ghost dv = deps.deep_view();
        proof {
            assert(dv.take(0) =~= Seq::<(Seq<char>, Option<Version>)>::empty());
        }
        for i in 0..deps.len()
            invariant
                dv == deps.deep_view(),
                start == entries_view(old(hash)@),
                entries_view(hash@) == deps_put(start, dv.take(i as int)),
        {
            proof {
                assert(dv.take(i + 1).drop_last() =~= dv.take(i as int));
                assert(dv[i as int] == (deps@[i as int].0@, deps@[i as int].1));
            }
            ModMeta::name_version_to_yaml(deps[i].0.as_str(), &deps[i].1, hash);
        }
        proof {
            assert(dv.take(dv.len() as int) =~= dv);
        }
    }

    /// The document the metadata is written as.
    pub fn to_yaml(&self) -> (r: Yaml)
        ensures
            r@ == mod_meta_written(self@),
    {
        let mut hash: Vec<(Yaml, Yaml)> = Vec::new();
        assert(entries_view(hash@) =~= Seq::<(YamlV, YamlV)>::empty());
        ModMeta::name_version_to_yaml(self.name.as_str(), &Some(self.version), &mut hash);
        let mut dep_hash: Vec<(Yaml, Yaml)> = Vec::new();
        assert(entries_view(dep_hash@) =~= Seq::<(YamlV, YamlV)>::empty());
        ModMeta::dependencies_to_yaml(&self.dependencies, &mut dep_hash);
        mapping_put(&mut hash, "Dependencies".to_owned(), Yaml::hash(dep_hash));
        let mut opt_dep_hash: Vec<(Yaml, Yaml)> = Vec::new();
        assert(entries_view(opt_dep_hash@) =~= Seq::<(YamlV, YamlV)>::empty());
        if let Some(optional_deps) = &self.optional_dependencies {
            ModMeta::dependencies_to_yaml(optional_deps, &mut opt_dep_hash);
        }
        mapping_put(&mut hash, "OptionalDependencies".to_owned(), Yaml::hash(opt_dep_hash));
        if let Some(dll) = &self.dll {
            mapping_put(&mut hash, "DLL".to_owned(), Yaml::string(dll.clone()));
        }
        Yaml::hash(hash)
    }

    /// Reads the metadata of each document of an `everest.yaml`, stopping at the first that fails.
    pub fn parse_all(docs: &Vec<Yaml>) -> (r: Result<Vec<ModMeta>, YamlParseError>)
        ensures
            match r {
                Ok(v) => v@.len() == docs@.len() && forall|i: int|
                    0 <= i < docs@.len() ==> mod_meta_read(#[trigger] docs@[i]@) == Ok::<_, MetaFailure>(v@[i]@),
                Err(YamlParseError::Custom(m)) => exists|i: int|
                    0 <= i < docs@.len() && (forall|j: int| 0 <= j < i ==> #[trigger] mod_meta_read(docs@[j]@) is Ok)
                        && match #[trigger] mod_meta_read(docs@[i]@) {
                        Err(f) => meta_failure_message(f, m@),
                        Ok(_) => false,
                    },
                Err(_) => false,
            },
    {
        let mut out: Vec<ModMeta> = Vec::new();
        for i in 0..docs.len()
            invariant
                out@.len() == i,
                forall|j: int| 0 <= j < i ==> mod_meta_read(#[trigger] docs@[j]@) == Ok::<_, MetaFailure>(out@[j]@),
        {
            match ModMeta::parse_from_yaml(&docs[i]) {
                Ok(m) => out.push(m),
                Err(e) => {
                    assert(forall|j: int| 0 <= j < i ==> #[trigger] mod_meta_read(docs@[j]@) is Ok);
                    return Err(e);
                },
            }
        }
        Ok(out)
    }
}

/// One more dependency read.
proof fn lemma_deps_read_step(s: Seq<YamlV>, i: int)
    requires
        0 <= i < s.len(),
    ensures
        deps_read(s.take(i + 1)) == match deps_read(s.take(i)) {
            Err(f) => Err(f),
            Ok(a) => match name_version_read(s[i]) {
                Ok(x) => Ok(a.push(x)),
                Err(f) => Err(f),
            },
        },
{
    assert(s.take(i + 1).drop_last() =~= s.take(i));
}

/// An optional version is its own deep view.
proof fn lemma_version_deep_view(o: Option<Version>)
    ensures
        o.deep_view() == o,
{
}

/// Once reading dependencies has failed on a prefix, it fails the same way on the whole.
proof fn lemma_deps_read_stops(s: Seq<YamlV>, i: int)
    requires
        0 <= i <= s.len(),
        deps_read(s.take(i)) is Err,
    ensures
        deps_read(s) == deps_read(s.take(i)),
    decreases s.len() - i,
{
    if i < s.len() {
        assert(s.take(i + 1).drop_last() =~= s.take(i));
        lemma_deps_read_stops(s, i + 1);
    } else {
        assert(s.take(i) =~= s);
    }
}

/// A list of dependencies that reads gives one name and version for each
/// entry, in order, each what that entry reads as.
pub proof fn lemma_deps_read_each(s: Seq<YamlV>)
    requires
        deps_read(s) is Ok,
    ensures
        deps_read(s)->Ok_0.len() == s.len(),
        forall|i: int| 0 <= i < s.len() ==> name_version_read(#[trigger] s[i]) == Ok::<
            (Seq<char>, Option<Version>),
            NameVersionFailure,
        >(deps_read(s)->Ok_0[i]),
    decreases s.len(),
{
    if s.len() > 0 {
        lemma_deps_read_each(s.drop_last());
        let a = deps_read(s.drop_last())->Ok_0;
        assert forall|i: int| 0 <= i < s.len() implies name_version_read(#[trigger] s[i]) == Ok::<
            (Seq<char>, Option<Version>),
            NameVersionFailure,
        >(deps_read(s)->Ok_0[i]) by {
            if i < s.len() - 1 {
                assert(s.drop_last()[i] == s[i]);
            }
        }
    }
}

/// Where a list of dependencies has an entry that does not read, the list
/// does not read.
proof fn lemma_deps_read_fails(s: Seq<YamlV>, i: int)
    requires
        0 <= i < s.len(),
        name_version_read(s[i]) is Err,
    ensures
        deps_read(s) is Err,
    decreases s.len(),
{
    if i < s.len() - 1 {
        assert(s.drop_last()[i] == s[i]);
        lemma_deps_read_fails(s.drop_last(), i);
    }
}

/// What reading a mod's metadata gives, field by field: its name is the
/// string under `Name` and its version what the text under `Version` reads
/// as; its dll is the string under `dll`, if any; its dependencies are the
/// entries of the list under `Dependencies` (none where the key is absent),
/// and its optional dependencies are `Some` of the entries of the list under
/// `OptionalDependencies` where that is a list, otherwise `None`; each entry
/// read as a name and version, in order.
pub proof fn lemma_mod_meta_fields(y: YamlV, m: ModMetaV)
    requires
        mod_meta_read(y) == Ok::<ModMetaV, MetaFailure>(m),
    ensures
        mapping_get(y, "Name"@) == Some(YamlV::String(m.name)),
        match mapping_get(y, "Version"@) {
            Some(YamlV::String(t)) => version_parse(t) == Ok::<Version, VersionFailure>(m.version),
            Some(YamlV::Real(t)) => version_parse(t) == Ok::<Version, VersionFailure>(m.version),
            _ => false,
        },
        match mapping_get(y, "dll"@) {
            Some(YamlV::String(d)) => m.dll == Some(d),
            _ => m.dll is None,
        },
        match mapping_get(y, "Dependencies"@) {
            None => m.dependencies.len() == 0,
            Some(YamlV::Sequence(s)) => m.dependencies.len() == s.len() && forall|i: int|
                0 <= i < s.len() ==> name_version_read(#[trigger] s[i]) == Ok::<
                    (Seq<char>, Option<Version>),
                    NameVersionFailure,
                >(m.dependencies[i]),
            Some(_) => false,
        },
        match mapping_get(y, "OptionalDependencies"@) {
            Some(YamlV::Sequence(s)) => m.optional_dependencies matches Some(o) && o.len() == s.len() && forall|i: int|
                0 <= i < s.len() ==> name_version_read(#[trigger] s[i]) == Ok::<
                    (Seq<char>, Option<Version>),
                    NameVersionFailure,
                >(o[i]),
            _ => m.optional_dependencies is None,
        },
{
    if let Some(YamlV::Sequence(s)) = mapping_get(y, "Dependencies"@) {
        lemma_deps_read_each(s);
    }
    if let Some(YamlV::Sequence(s)) = mapping_get(y, "OptionalDependencies"@) {
        lemma_deps_read_each(s);
    }
}

/// A mod's metadata does not read where an entry of its `Dependencies` list,
/// or of its `OptionalDependencies` list, does not read as a name and version.
pub proof fn lemma_bad_dependency_fails(y: YamlV, key: Seq<char>, i: int)
    requires
        key == "Dependencies"@ || key == "OptionalDependencies"@,
        mapping_get(y, key) matches Some(YamlV::Sequence(s)) && 0 <= i < s.len() && name_version_read(s[i]) is Err,
    ensures
        mod_meta_read(y) is Err,
{
    if let Some(YamlV::Sequence(s)) = mapping_get(y, key) {
        lemma_deps_read_fails(s, i);
    }
}

} // verus!
