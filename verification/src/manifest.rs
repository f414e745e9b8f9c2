//! The plugin manifest model.
//!
//! A manifest names a plugin, its license, the host versions it supports,
//! and one downloadable package per supported operating system. A raw
//! manifest — the fields as they appear in the wire document, where the
//! schema indicator may be spelled under a current or a deprecated tag name
//! and any field may be missing — is normalized here into the one canonical
//! shape that the rest of the pipeline consumes.

use vstd::prelude::*;

use crate::error::PluginError;
use crate::text::{str_eq, str_to_chars};

verus! {

/// The operating systems a package descriptor may target.
#[derive(Clone, Copy, Debug, PartialEq, Eq, Structural)]
pub enum Os {
    Linux,
    MacOs,
    Windows,
}

/// The manifest wire name of an operating system.
pub open spec fn os_name(os: Os) -> Seq<char> {
    match os {
        Os::Linux => "linux"@,
        Os::MacOs => "macos"@,
        Os::Windows => "windows"@,
    }
}

/// The operating system named by a manifest `os` field, if any.
pub open spec fn spec_parse_os(s: Seq<char>) -> Option<Os> {
    if s == "linux"@ {
        Some(Os::Linux)
    } else if s == "macos"@ {
        Some(Os::MacOs)
    } else if s == "windows"@ {
        Some(Os::Windows)
    } else {
        None
    }
}

impl Os {
    /// The manifest wire name of this operating system.
    pub fn name(&self) -> (r: &'static str)
        ensures
            r@ == os_name(*self),
    {
        match self {
            Os::Linux => "linux",
            Os::MacOs => "macos",
            Os::Windows => "windows",
        }
    }
}

/// Parses a manifest `os` field.
pub fn parse_os(s: &str) -> (r: Option<Os>)
    ensures
        r == spec_parse_os(s@),
{
    if str_eq(s, "linux") {
        Some(Os::Linux)
    } else if str_eq(s, "macos") {
        Some(Os::MacOs)
    } else if str_eq(s, "windows") {
        Some(Os::Windows)
    } else {
        None
    }
}

pub open spec fn is_hex_digit(c: char) -> bool {
    ('0' <= c && c <= '9') || ('a' <= c && c <= 'f') || ('A' <= c && c <= 'F')
}

/// A well-formed declared digest: exactly 64 hex characters.
pub open spec fn valid_sha256(s: Seq<char>) -> bool {
    s.len() == 64 && forall|k: int| 0 <= k < s.len() ==> is_hex_digit(s[k])
}

/// Checks that a declared digest is 64 hex characters.
pub fn check_sha256(s: &str) -> (r: bool)
    ensures
        r == valid_sha256(s@),
{
    let v = str_to_chars(s);
    if v.len() != 64 {
        return false;
    }
    let mut k: usize = 0;
    while k < v.len()
        invariant
            v@ == s@,
            k <= v@.len(),
            forall|m: int| 0 <= m < k ==> is_hex_digit(v@[m]),
        decreases v@.len() - k,
    {
        let c = v[k];
        if !(('0' <= c && c <= '9') || ('a' <= c && c <= 'f') || ('A' <= c && c <= 'F')) {
            return false;
        }
        k = k + 1;
    }
    true
}

/// One platform-specific package entry of a manifest.
#[derive(Clone, Debug, PartialEq, Eq)]
#[verifier::ext_equal]
pub struct PackageDescriptor {
    /// The operating system this package targets.
    pub os: Os,
    /// Where the package archive is downloaded from.
    pub url: String,
    /// The declared SHA-256 digest of the archive, 64 hex characters.
    pub sha256: String,
}

/// The mathematical model of a package entry.
#[verifier::ext_equal]
pub struct SpecPackage {
    pub os: Os,
    pub url: Seq<char>,
    pub sha256: Seq<char>,
}

impl View for PackageDescriptor {
    type V = SpecPackage;

    open spec fn view(&self) -> SpecPackage {
        SpecPackage { os: self.os, url: self.url@, sha256: self.sha256@ }
    }
}

pub open spec fn wf_package(p: SpecPackage) -> bool {
    valid_sha256(p.sha256)
}

/// The canonical, resolved form of a plugin manifest.
#[derive(Clone, Debug, PartialEq, Eq)]
pub struct PluginManifest {
    /// The plugin's name, the unique key of the registry.
    pub name: String,
    /// A free-text description; empty when the document carries none.
    pub description: String,
    /// The plugin's license identifier.
    pub license: String,
    /// The host version range the plugin declares it supports.
    pub spin_compatibility: String,
    /// The downloadable packages, at most one per operating system.
    pub packages: Vec<PackageDescriptor>,
}

/// The mathematical model of a manifest.
#[verifier::ext_equal]
pub struct SpecManifest {
    pub name: Seq<char>,
    pub description: Seq<char>,
    pub license: Seq<char>,
    pub spin_compatibility: Seq<char>,
    pub packages: Seq<SpecPackage>,
}

impl View for PluginManifest {
    type V = SpecManifest;

    open spec fn view(&self) -> SpecManifest {
        SpecManifest {
            name: self.name@,
            description: self.description@,
            license: self.license@,
            spin_compatibility: self.spin_compatibility@,
            packages: self.packages@.map_values(|p: PackageDescriptor| p@),
        }
    }
}

/// The manifest invariant: a nonempty package list, at most one package per
/// operating system, every declared digest 64 hex characters.
pub open spec fn wf_manifest(m: SpecManifest) -> bool {
    &&& m.packages.len() > 0
    &&& forall|a: int, b: int|
        0 <= a < b < m.packages.len() ==> (#[trigger] m.packages[a]).os != (
        #[trigger] m.packages[b]).os
    &&& forall|k: int| 0 <= k < m.packages.len() ==> wf_package(#[trigger] m.packages[k])
}

/// One package entry as it appears in the wire document.
#[derive(Clone, Debug)]
pub struct RawPackageDescriptor {
    pub os: Option<String>,
    pub url: Option<String>,
    pub sha256: Option<String>,
}

/// The mathematical model of a raw package entry.
#[verifier::ext_equal]
pub struct SpecRawPackage {
    pub os: Option<Seq<char>>,
    pub url: Option<Seq<char>>,
    pub sha256: Option<Seq<char>>,
}

pub open spec fn opt_str_view(o: Option<String>) -> Option<Seq<char>> {
    match o {
        Some(s) => Some(s@),
        None => None,
    }
}

impl View for RawPackageDescriptor {
    type V = SpecRawPackage;

    open spec fn view(&self) -> SpecRawPackage {
        SpecRawPackage {
            os: opt_str_view(self.os),
            url: opt_str_view(self.url),
            sha256: opt_str_view(self.sha256),
        }
    }
}

/// A manifest document's fields before normalization. The schema indicator
/// may appear under the current tag name, the deprecated one, or not at all.
#[derive(Clone, Debug)]
pub struct RawPluginManifest {
    /// The schema version under the current tag name, if present.
    pub schema_version: Option<String>,
    /// The schema version under the deprecated tag name, if present.
    pub schema_version_deprecated: Option<String>,
    pub name: Option<String>,
    pub description: Option<String>,
    pub license: Option<String>,
    pub spin_compatibility: Option<String>,
    pub packages: Option<Vec<RawPackageDescriptor>>,
}

/// The mathematical model of a raw manifest document.
#[verifier::ext_equal]
pub struct SpecRawManifest {
    pub schema_version: Option<Seq<char>>,
    pub schema_version_deprecated: Option<Seq<char>>,
    pub name: Option<Seq<char>>,
    pub description: Option<Seq<char>>,
    pub license: Option<Seq<char>>,
    pub spin_compatibility: Option<Seq<char>>,
    pub packages: Option<Seq<SpecRawPackage>>,
}

impl View for RawPluginManifest {
    type V = SpecRawManifest;

    open spec fn view(&self) -> SpecRawManifest {
        SpecRawManifest {
            schema_version: opt_str_view(self.schema_version),
            schema_version_deprecated: opt_str_view(self.schema_version_deprecated),
            name: opt_str_view(self.name),
            description: opt_str_view(self.description),
            license: opt_str_view(self.license),
            spin_compatibility: opt_str_view(self.spin_compatibility),
            packages: match self.packages {
                Some(ps) => Some(ps@.map_values(|p: RawPackageDescriptor| p@)),
                None => None,
            },
        }
    }
}

/// Whether the document's schema indicator names the one supported schema
/// version. A missing indicator is accepted; an unrecognized version value
/// under either tag name — including a stale value under the deprecated tag
/// beside a current one — is not.
pub open spec fn spec_schema_supported(raw: SpecRawManifest) -> bool {
    &&& match raw.schema_version {
        Some(v) => v == "1"@,
        None => true,
    }
    &&& match raw.schema_version_deprecated {
        Some(v) => v == "1"@,
        None => true,
    }
}

/// Whether one raw package entry normalizes: all three fields present, the
/// operating system recognized, the digest 64 hex characters.
pub open spec fn spec_package_resolvable(p: SpecRawPackage) -> bool {
    &&& p.os is Some
    &&& p.url is Some
    &&& p.sha256 is Some
    &&& spec_parse_os(p.os->Some_0) is Some
    &&& valid_sha256(p.sha256->Some_0)
}

/// Whether a raw manifest normalizes (schema aside): required fields present,
/// a nonempty package list, every entry resolvable, no two entries for the
/// same operating system.
pub open spec fn spec_raw_resolvable(raw: SpecRawManifest) -> bool {
    &&& raw.name is Some
    &&& raw.license is Some
    &&& raw.spin_compatibility is Some
    &&& raw.packages is Some
    &&& raw.packages->Some_0.len() > 0
    &&& forall|k: int|
        0 <= k < raw.packages->Some_0.len() ==> spec_package_resolvable(
            #[trigger] raw.packages->Some_0[k],
        )
    &&& forall|a: int, b: int|
        0 <= a < b < raw.packages->Some_0.len() ==> spec_parse_os(
            (#[trigger] raw.packages->Some_0[a]).os->Some_0,
        ) != spec_parse_os((#[trigger] raw.packages->Some_0[b]).os->Some_0)
}

/// The normalized form of one resolvable raw package entry.
pub open spec fn spec_resolved_package(p: SpecRawPackage) -> SpecPackage {
    SpecPackage {
        os: spec_parse_os(p.os->Some_0)->Some_0,
        url: p.url->Some_0,
        sha256: p.sha256->Some_0,
    }
}

/// The normalized form of a resolvable raw manifest: the raw fields, a
/// missing description defaulting to empty, packages normalized pointwise.
pub open spec fn spec_resolved(raw: SpecRawManifest) -> SpecManifest {
    SpecManifest {
        name: raw.name->Some_0,
        description: match raw.description {
            Some(d) => d,
            None => Seq::<char>::empty(),
        },
        license: raw.license->Some_0,
        spin_compatibility: raw.spin_compatibility->Some_0,
        packages: raw.packages->Some_0.map_values(|p: SpecRawPackage| spec_resolved_package(p)),
    }
}

/// Normalizing a resolvable raw manifest yields a well-formed manifest.
pub proof fn lemma_resolved_wf(raw: SpecRawManifest)
    requires
        spec_raw_resolvable(raw),
    ensures
        wf_manifest(spec_resolved(raw)),
{
    let m = spec_resolved(raw);
    let rps = raw.packages->Some_0;
    assert forall|a: int, b: int| 0 <= a < b < m.packages.len() implies (
    #[trigger] m.packages[a]).os != (#[trigger] m.packages[b]).os by {
        assert(spec_package_resolvable(rps[a]));
        assert(spec_package_resolvable(rps[b]));
        assert(m.packages[a] == spec_resolved_package(rps[a]));
        assert(m.packages[b] == spec_resolved_package(rps[b]));
        assert(spec_parse_os(rps[a].os->Some_0) != spec_parse_os(rps[b].os->Some_0));
    }
    assert forall|k: int| 0 <= k < m.packages.len() implies wf_package(
        #[trigger] m.packages[k],
    ) by {
        assert(spec_package_resolvable(rps[k]));
        assert(m.packages[k] == spec_resolved_package(rps[k]));
    }
}

/// Normalizes a raw manifest document into the canonical shape.
///
/// An unrecognized schema version fails with `UnsupportedSchema`; any other
/// defect (missing fields, an empty package list, an unknown operating
/// system, a bad digest, two packages for one operating system) fails with
/// `MalformedManifest`.
pub fn resolve_manifest(raw: &RawPluginManifest) -> (r: Result<PluginManifest, PluginError>)
    ensures
        match r {
            Ok(m) => spec_schema_supported(raw@) && spec_raw_resolvable(raw@) && m@
                == spec_resolved(raw@) && wf_manifest(m@),
            Err(e) => if !spec_schema_supported(raw@) {
                e is UnsupportedSchema
            } else {
                !spec_raw_resolvable(raw@) && e is MalformedManifest
            },
        },
{
    let current_ok = match &raw.schema_version {
        Some(v) => str_eq(v.as_str(), "1"),
        None => true,
    };
    let deprecated_ok = match &raw.schema_version_deprecated {
        Some(v) => str_eq(v.as_str(), "1"),
        None => true,
    };
    if !(current_ok && deprecated_ok) {
        return Err(PluginError::UnsupportedSchema);
    }
    let name = match &raw.name {
        Some(n) => n.clone(),
        None => {
            return Err(PluginError::MalformedManifest);
        },
    };
    let description = match &raw.description {
        Some(d) => d.clone(),
        None => String::new(),
    };
    let license = match &raw.license {
        Some(l) => l.clone(),
        None => {
            return Err(PluginError::MalformedManifest);
        },
    };
    let spin_compatibility = match &raw.spin_compatibility {
        Some(c) => c.clone(),
        None => {
            return Err(PluginError::MalformedManifest);
        },
    };
    let raw_packages = match &raw.packages {
        Some(ps) => ps,
        None => {
            return Err(PluginError::MalformedManifest);
        },
    };
    if raw_packages.len() == 0 {
        return Err(PluginError::MalformedManifest);
    }
    let mut packages: Vec<PackageDescriptor> = Vec::new();
    let mut k: usize = 0;
    while k < raw_packages.len()
        invariant
            spec_schema_supported(raw@),
            raw.name is Some,
            raw.license is Some,
            raw.spin_compatibility is Some,
            raw.packages is Some,
            raw_packages@.len() > 0,
            raw@.packages == Some(raw_packages@.map_values(|p: RawPackageDescriptor| p@)),
            k <= raw_packages@.len(),
            packages@.len() == k,
            forall|m: int| 0 <= m < k ==> spec_package_resolvable(#[trigger] raw_packages@[m]@),
            forall|m: int|
                0 <= m < k ==> (#[trigger] packages@[m])@ == spec_resolved_package(
                    raw_packages@[m]@,
                ),
            forall|a: int, b: int|
                0 <= a < b < k ==> (#[trigger] packages@[a]).os != (#[trigger] packages@[b]).os,
        decreases raw_packages@.len() - k,
    {
        let rp = &raw_packages[k];
        let os_str = match &rp.os {
            Some(s) => s,
            None => {
                assert(!spec_package_resolvable(raw@.packages->Some_0[k as int]));
                return Err(PluginError::MalformedManifest);
            },
        };
        let os = match parse_os(os_str.as_str()) {
            Some(os) => os,
            None => {
                assert(!spec_package_resolvable(raw@.packages->Some_0[k as int]));
                return Err(PluginError::MalformedManifest);
            },
        };
        let url = match &rp.url {
            Some(u) => u.clone(),
            None => {
                assert(!spec_package_resolvable(raw@.packages->Some_0[k as int]));
                return Err(PluginError::MalformedManifest);
            },
        };
        let sha256 = match &rp.sha256 {
            Some(h) => h.clone(),
            None => {
                assert(!spec_package_resolvable(raw@.packages->Some_0[k as int]));
                return Err(PluginError::MalformedManifest);
            },
        };
        if !check_sha256(sha256.as_str()) {
            assert(!spec_package_resolvable(raw@.packages->Some_0[k as int]));
            return Err(PluginError::MalformedManifest);
        }
        // A second package for an operating system already seen makes the
        // manifest malformed.
        let mut d: usize = 0;
        while d < packages.len()
            invariant
                spec_schema_supported(raw@),
                raw.packages is Some,
                raw@.packages == Some(raw_packages@.map_values(|p: RawPackageDescriptor| p@)),
                0 <= k < raw_packages@.len(),
                packages@.len() == k,
                d <= packages@.len(),
                spec_parse_os(raw_packages@[k as int]@.os->Some_0) == Some(os),
                forall|m: int| 0 <= m < k ==> spec_package_resolvable(#[trigger] raw_packages@[m]@),
                forall|m: int|
                    0 <= m < k ==> (#[trigger] packages@[m])@ == spec_resolved_package(
                        raw_packages@[m]@,
                    ),
                forall|m: int| 0 <= m < d ==> (#[trigger] packages@[m]).os != os,
            decreases packages@.len() - d,
        {
            if packages[d].os == os {
                proof {
                    assert(packages@[d as int]@ == spec_resolved_package(raw_packages@[d as int]@));
                    assert(spec_package_resolvable(raw_packages@[d as int]@));
                    assert(spec_parse_os(raw_packages@[d as int]@.os->Some_0) == Some(
                        packages@[d as int].os,
                    ));
                    assert(raw@.packages->Some_0[d as int] == raw_packages@[d as int]@);
                    assert(raw@.packages->Some_0[k as int] == raw_packages@[k as int]@);
                    assert(spec_parse_os(raw@.packages->Some_0[d as int].os->Some_0)
                        == spec_parse_os(raw@.packages->Some_0[k as int].os->Some_0));
                    assert(!spec_raw_resolvable(raw@));
                }
                return Err(PluginError::MalformedManifest);
            }
            d = d + 1;
        }
        packages.push(PackageDescriptor { os, url, sha256 });
        k = k + 1;
    }
    let m = PluginManifest { name, description, license, spin_compatibility, packages };
    proof {
        let rawv = raw@.packages->Some_0;
        assert forall|a: int, b: int| 0 <= a < b < rawv.len() implies spec_parse_os(
            (#[trigger] rawv[a]).os->Some_0,
        ) != spec_parse_os((#[trigger] rawv[b]).os->Some_0) by {
            assert(m.packages@[a]@ == spec_resolved_package(rawv[a]));
            assert(m.packages@[b]@ == spec_resolved_package(rawv[b]));
            assert(m.packages@[a].os != m.packages@[b].os);
        }
        assert(spec_raw_resolvable(raw@));
        assert(m@.packages =~= spec_resolved(raw@).packages);
        assert(m@ =~= spec_resolved(raw@));
        lemma_resolved_wf(raw@);
    }
    Ok(m)
}

/// The first package entry matching `os`, scanning from position `i`.
pub open spec fn spec_select_from(ps: Seq<PackageDescriptor>, os: Os, i: int) -> Option<
    PackageDescriptor,
>
    decreases ps.len() - i,
{
    if i < 0 || i >= ps.len() {
        None
    } else if ps[i].os == os {
        Some(ps[i])
    } else {
        spec_select_from(ps, os, i + 1)
    }
}

/// The package entry a manifest offers for `os`, if any.
pub open spec fn spec_select_package(ps: Seq<PackageDescriptor>, os: Os) -> Option<
    PackageDescriptor,
> {
    spec_select_from(ps, os, 0)
}

/// Whether some package entry targets `os`.
pub open spec fn has_package_for(ps: Seq<SpecPackage>, os: Os) -> bool {
    exists|k: int| 0 <= k < ps.len() && ps[k].os == os
}

/// Selection from position `i` fails exactly when no entry from `i` on
/// matches.
pub proof fn lemma_select_none(ps: Seq<PackageDescriptor>, os: Os, i: int)
    requires
        0 <= i <= ps.len(),
    ensures
        spec_select_from(ps, os, i) is None <==> (forall|k: int|
            i <= k < ps.len() ==> (#[trigger] ps[k]).os != os),
    decreases ps.len() - i,
{
    if i < ps.len() {
        lemma_select_none(ps, os, i + 1);
    }
}

/// Selects the package for the given operating system.
///
/// An empty package list is a malformed manifest, distinct from a nonempty
/// list with no entry for `os`, which means the platform is unsupported.
pub fn select_package<'a>(m: &'a PluginManifest, os: Os) -> (r: Result<
    &'a PackageDescriptor,
    PluginError,
>)
    ensures
        match r {
            Ok(p) => spec_select_package(m.packages@, os) == Some(*p) && p.os == os,
            Err(e) => spec_select_package(m.packages@, os) is None && (if m.packages@.len() == 0 {
                e is MalformedManifest
            } else {
                e is PlatformUnsupported
            }),
        },
{
    if m.packages.len() == 0 {
        return Err(PluginError::MalformedManifest);
    }
    let mut k: usize = 0;
    while k < m.packages.len()
        invariant
            k <= m.packages@.len(),
            spec_select_from(m.packages@, os, 0) == spec_select_from(m.packages@, os, k as int),
        decreases m.packages@.len() - k,
    {
        if m.packages[k].os == os {
            return Ok(&m.packages[k]);
        }
        k = k + 1;
    }
    Err(PluginError::PlatformUnsupported)
}

} // verus!
