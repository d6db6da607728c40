//! Semantic-version constraints: where they come from and which release
//! versions they admit. Parsing and matching are semver's.
use vstd::prelude::*;

use crate::text::{strip_marker, trim_text, trimmed, without_marker};

verus! {

/// Whether `semver::VersionReq::parse` accepts the text.
pub uninterp spec fn req_parses(text: Seq<char>) -> bool;

/// Whether `semver::Version::parse` accepts the text.
pub uninterp spec fn version_parses(text: Seq<char>) -> bool;

/// Whether the requirement parsed from `req` matches the version parsed from
/// `version` (`semver::VersionReq::matches`).
pub uninterp spec fn req_matches(req: Seq<char>, version: Seq<char>) -> bool;

/// Relies on `semver::VersionReq::parse`: tells whether the text is a valid
/// version requirement.
#[verifier::external_body]
fn is_valid_req(text: &str) -> (r: bool)
    ensures
        r == req_parses(text@),
{
    semver::VersionReq::parse(text).is_ok()
}

/// Relies on `semver::Version::parse`: tells whether the text is a valid
/// version.
#[verifier::external_body]
fn is_valid_version(text: &str) -> (r: bool)
    ensures
        r == version_parses(text@),
{
    semver::Version::parse(text).is_ok()
}

/// Relies on `semver::VersionReq::matches`, applied to the two parsed values;
/// both parses succeed by the precondition, so neither `unwrap` panics.
#[verifier::external_body]
fn req_admits(req: &str, version: &str) -> (r: bool)
    requires
        req_parses(req@),
        version_parses(version@),
    ensures
        r == req_matches(req@, version@),
{
    semver::VersionReq::parse(req).unwrap().matches(&semver::Version::parse(version).unwrap())
}

/// A version requirement, kept as the text that semver accepted.
#[derive(Debug)]
pub struct VersionConstraint {
    text: String,
}

impl View for VersionConstraint {
    type V = Seq<char>;

    closed spec fn view(&self) -> Seq<char> {
        self.text@
    }
}

/// The text of a constraint, if there is one.
pub open spec fn constraint_text(c: Option<VersionConstraint>) -> Option<Seq<char>> {
    match c {
        Some(c) => Some(c@),
        None => None,
    }
}

/// Whether a release labelled `version` (with or without a leading `v`)
/// satisfies the constraint; no constraint admits every release.
pub open spec fn admits_version(c: Option<Seq<char>>, version: Seq<char>) -> bool {
    match c {
        Some(req) => version_parses(without_marker(version)) && req_matches(
            req,
            without_marker(version),
        ),
        None => true,
    }
}

/// The constraint read from a dotfile: its content without the leading `v`
/// marker and surrounding white space, if semver accepts that.
pub open spec fn dotfile_constraint(content: Seq<char>) -> Option<Seq<char>> {
    let t = trimmed(without_marker(content));
    if req_parses(t) {
        Some(t)
    } else {
        None
    }
}

/// The constraint of a project: the manifest's engine range if the manifest
/// declares engines (no constraint where that range does not parse), else
/// the dotfile's, else none.
pub open spec fn project_constraint(engine: Option<Seq<char>>, dotfile: Option<Seq<char>>) -> Option<
    Seq<char>,
> {
    match engine {
        Some(e) => if req_parses(e) {
            Some(e)
        } else {
            None
        },
        None => match dotfile {
            Some(d) => dotfile_constraint(d),
            None => None,
        },
    }
}

impl VersionConstraint {
    #[verifier::type_invariant]
    spec fn inv(&self) -> bool {
        req_parses(self.text@)
    }

    /// Parses a version requirement; `None` where semver rejects it.
    pub fn parse(text: &str) -> (r: Option<VersionConstraint>)
        ensures
            r is Some <==> req_parses(text@),
            r matches Some(c) ==> c@ == text@,
    {
        if is_valid_req(text) {
            Some(VersionConstraint { text: String::from_str(text) })
        } else {
            None
        }
    }

    /// The requirement's text.
    pub fn as_str(&self) -> (r: &str)
        ensures
            r@ == self@,
    {
        self.text.as_str()
    }

    /// Whether the release labelled `version` satisfies this requirement.
    pub fn admits(&self, version: &str) -> (r: bool)
        ensures
            r == admits_version(Some(self@), version@),
    {
        proof {
            use_type_invariant(self);
        }
        let bare = strip_marker(version);
        if is_valid_version(bare.as_str()) {
            req_admits(self.text.as_str(), bare.as_str())
        } else {
            false
        }
    }
}

/// Whether the release labelled `version` satisfies the optional constraint.
pub fn satisfies(c: &Option<VersionConstraint>, version: &str) -> (r: bool)
    ensures
        r == admits_version(constraint_text(*c), version@),
{
    match c {
        Some(req) => req.admits(version),
        None => true,
    }
}

/// Reads a constraint from a dotfile holding one version token, optionally
/// marked with a leading `v`. Text that is no version requirement gives no
/// constraint.
pub fn parse_dotfile(content: &str) -> (r: Option<VersionConstraint>)
    ensures
        constraint_text(r) == dotfile_constraint(content@),
{
    let bare = strip_marker(content);
    let token = trim_text(bare.as_str());
    VersionConstraint::parse(token.as_str())
}

/// Chooses the project's constraint. `engine` is the manifest's engine
/// range where the manifest declares engines; `dotfile` the dotfile's
/// content where there is one. The first source present decides.
pub fn resolve_constraint(engine: Option<&str>, dotfile: Option<&str>) -> (r: Option<
    VersionConstraint,
>)
    ensures
        constraint_text(r) == project_constraint(
            match engine {
                Some(e) => Some(e@),
                None => None,
            },
            match dotfile {
                Some(d) => Some(d@),
                None => None,
            },
        ),
{
    match engine {
        Some(e) => VersionConstraint::parse(e),
        None => match dotfile {
            Some(d) => parse_dotfile(d),
            None => None,
        },
    }
}

} // verus!
