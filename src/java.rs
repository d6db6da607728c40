//! The JDK runtime: its bundle catalog (a flat array of records), the
//! first-match selection over it, and the layout of an unpacked bundle.
use vstd::prelude::*;

use crate::target::{Arch, Os, ResolveError, Target};
use crate::text::{contains_text, has_infix};

verus! {

/// One record of the bundle catalog, reduced to the fields that selection
/// reads.
#[derive(Clone, Debug, PartialEq, Eq)]
pub struct JavaBundle {
    /// Free-text OS tag (`windows`, `linux`, `linux-musl`, `macos`, ...).
    pub os: String,
    /// CPU family (`x86`, `arm`, ...).
    pub arch: String,
    /// Hardware bitness (`32`, `64`).
    pub hw_bitness: String,
    /// Archive extension (`zip`, `tar.gz`, ...).
    pub ext: String,
    /// Absolute download location.
    pub url: String,
}

/// The OS that a bundle's tag names.
pub open spec fn tag_os(tag: Seq<char>) -> Os {
    if tag == "windows"@ {
        Os::Windows
    } else if has_infix(tag, "linux"@) {
        Os::Linux
    } else {
        Os::Mac
    }
}

/// The architecture of a (cpu family, bitness) pair; unknown pairs have none.
pub open spec fn pair_arch(family: Seq<char>, bits: Seq<char>) -> Option<Arch> {
    if family == "x86"@ && bits == "64"@ {
        Some(Arch::X86_64)
    } else if family == "arm"@ && bits == "64"@ {
        Some(Arch::Arm64)
    } else {
        None
    }
}

/// The archive extension expected on an OS.
pub open spec fn expected_ext(os: Os) -> Seq<char> {
    if os == Os::Windows {
        "zip"@
    } else {
        "tar.gz"@
    }
}

/// Whether a bundle serves the target: same OS, a known architecture equal
/// to the target's, the OS's archive extension, and an explicit musl tag
/// where the target asks for musl.
pub open spec fn bundle_fits(b: JavaBundle, t: Target) -> bool {
    &&& pair_arch(b.arch@, b.hw_bitness@) == Some(t.arch)
    &&& tag_os(b.os@) == t.os
    &&& b.ext@ == expected_ext(t.os)
    &&& (t.is_musl() ==> has_infix(b.os@, "musl"@))
}

/// Whether index `i` holds the first bundle of the catalog that serves the
/// target.
pub open spec fn is_first_fit(s: Seq<JavaBundle>, t: Target, i: int) -> bool {
    &&& 0 <= i < s.len()
    &&& bundle_fits(s[i], t)
    &&& forall|j: int| 0 <= j < i ==> !bundle_fits(#[trigger] s[j], t)
}

/// The location of the first bundle that serves the target, if any.
pub open spec fn java_choice(s: Seq<JavaBundle>, t: Target) -> Option<Seq<char>> {
    if exists|i: int| is_first_fit(s, t, i) {
        Some(s[choose|i: int| is_first_fit(s, t, i)].url@)
    } else {
        None
    }
}

/// What a selection over catalog `s` for target `t` returns: the location
/// chosen, or `UnsupportedTarget` where no bundle fits.
pub open spec fn java_outcome(s: Seq<JavaBundle>, t: Target, r: Result<String, ResolveError>) -> bool {
    match r {
        Ok(url) => java_choice(s, t) == Some(url@),
        Err(e) => java_choice(s, t) is None && e is UnsupportedTarget,
    }
}

proof fn lemma_first_fit_unique(s: Seq<JavaBundle>, t: Target, i: int, k: int)
    requires
        is_first_fit(s, t, i),
        is_first_fit(s, t, k),
    ensures
        i == k,
{
    if i < k {
        assert(!bundle_fits(s[i], t));
    } else if k < i {
        assert(!bundle_fits(s[k], t));
    }
}

proof fn lemma_choice_at(s: Seq<JavaBundle>, t: Target, i: int)
    requires
        is_first_fit(s, t, i),
    ensures
        java_choice(s, t) == Some(s[i].url@),
{
    let k = choose|k: int| is_first_fit(s, t, k);
    lemma_first_fit_unique(s, t, i, k);
}

/// First match wins: where the bundle at `i` serves the target and none
/// before it does, selection returns it, however many bundles follow.
pub proof fn lemma_first_match_wins(s: Seq<JavaBundle>, t: Target, i: int, rest: Seq<JavaBundle>)
    requires
        0 <= i < s.len(),
        bundle_fits(s[i], t),
        forall|j: int| 0 <= j < i ==> !bundle_fits(#[trigger] s[j], t),
    ensures
        java_choice(s, t) == Some(s[i].url@),
        java_choice(s + rest, t) == Some(s[i].url@),
{
    lemma_choice_at(s, t, i);
    let u = s + rest;
    assert forall|j: int| 0 <= j < i implies !bundle_fits(#[trigger] u[j], t) by {
        assert(u[j] == s[j]);
    }
    assert(u[i] == s[i]);
    lemma_choice_at(u, t, i);
}

/// Selection never falls back to a near match: a chosen location belongs to
/// a bundle that serves the target.
pub proof fn lemma_choice_fits(s: Seq<JavaBundle>, t: Target)
    ensures
        java_choice(s, t) matches Some(url) ==> exists|i: int|
            0 <= i < s.len() && bundle_fits(s[i], t) && #[trigger] s[i].url@ == url,
{
    if exists|i: int| is_first_fit(s, t, i) {
        let k = choose|k: int| is_first_fit(s, t, k);
        assert(s[k].url@ == java_choice(s, t).unwrap());
    }
}

/// Selection is deterministic: two selections over the same catalog and
/// target give the same result.
pub proof fn lemma_java_deterministic(
    s: Seq<JavaBundle>,
    t: Target,
    r1: Result<String, ResolveError>,
    r2: Result<String, ResolveError>,
)
    requires
        java_outcome(s, t, r1),
        java_outcome(s, t, r2),
    ensures
        r1 is Ok <==> r2 is Ok,
        r1 matches Ok(a) ==> (r2 matches Ok(b) && a@ == b@),
        r1 matches Err(e1) ==> (r2 matches Err(e2) && e1 == e2),
{
}

/// Whether the bundle serves the target.
pub fn fits(b: &JavaBundle, t: &Target) -> (r: bool)
    ensures
        r == bundle_fits(*b, *t),
{
    let os = if b.os == String::from_str("windows") {
        Os::Windows
    } else if contains_text(b.os.as_str(), "linux") {
        Os::Linux
    } else {
        Os::Mac
    };
    let x64 = b.hw_bitness == String::from_str("64");
    let arch = if b.arch == String::from_str("x86") && x64 {
        Some(Arch::X86_64)
    } else if b.arch == String::from_str("arm") && x64 {
        Some(Arch::Arm64)
    } else {
        None
    };
    let ext = match t.os {
        Os::Windows => String::from_str("zip"),
        _ => String::from_str("tar.gz"),
    };
    let variant_ok = !t.musl() || contains_text(b.os.as_str(), "musl");
    match arch {
        Some(a) => variant_ok && os == t.os && a == t.arch && b.ext == ext,
        None => false,
    }
}

/// Scans the catalog in order and returns the location of the first bundle
/// that serves the target; `UnsupportedTarget` where none does.
pub fn get_java_download_url(catalog: &Vec<JavaBundle>, target: &Target) -> (r: Result<
    String,
    ResolveError,
>)
    ensures
        java_outcome(catalog@, *target, r),
{
    let mut i: usize = 0;
    while i < catalog.len()
        invariant
            i <= catalog.len(),
            forall|j: int| 0 <= j < i ==> !bundle_fits(#[trigger] catalog@[j], *target),
        decreases catalog.len() - i,
    {
        if fits(&catalog[i], target) {
            proof {
                lemma_choice_at(catalog@, *target, i as int);
            }
            return Ok(catalog[i].url.clone());
        }
        i += 1;
    }
    Err(ResolveError::UnsupportedTarget)
}

/// The JDK runtime.
pub struct Java {}

impl Java {
    /// Path of the `java` executable inside an unpacked bundle.
    pub fn get_bin(&self, target: &Target) -> (r: &'static str)
        ensures
            r@ == (if target.os == Os::Windows {
                "bin/java.exe"@
            } else {
                "bin/java"@
            }),
    {
        match target.os {
            Os::Windows => "bin/java.exe",
            _ => "bin/java",
        }
    }

    /// Name of the cache directory and of the command this runtime serves.
    pub fn get_path(&self) -> (r: &'static str)
        ensures
            r@ == "java"@,
    {
        "java"
    }
}

} // verus!
