//! The platform a runtime is provisioned for, the error kinds of a
//! resolution, and the routing of a target to one catalog provider.
use vstd::prelude::*;

verus! {

/// Operating system of a target.
#[derive(Clone, Copy, Debug, PartialEq, Eq, Structural)]
pub enum Os {
    Windows,
    Linux,
    Mac,
}

/// CPU architecture of a target.
#[derive(Clone, Copy, Debug, PartialEq, Eq, Structural)]
pub enum Arch {
    X86_64,
    Arm64,
    Armv7,
}

/// libc / ABI variant of a target.
#[derive(Clone, Copy, Debug, PartialEq, Eq, Structural)]
pub enum Variant {
    Musl,
}

/// The (os, arch, variant) triple that a runtime build must match.
#[derive(Clone, Copy, Debug, PartialEq, Eq)]
pub struct Target {
    pub os: Os,
    pub arch: Arch,
    pub variant: Option<Variant>,
}

impl Target {
    pub open spec fn is_musl(&self) -> bool {
        match self.variant {
            Some(v) => v == Variant::Musl,
            None => false,
        }
    }

    /// Whether the target asks for the musl variant.
    pub fn musl(&self) -> (r: bool)
        ensures
            r == self.is_musl(),
    {
        match self.variant {
            Some(Variant::Musl) => true,
            None => false,
        }
    }
}

/// Why a resolution failed.
#[derive(Clone, Debug, PartialEq, Eq)]
pub enum ResolveError {
    /// The catalog could not be fetched; the transport's message.
    Network(String),
    /// The catalog's top-level structure did not parse.
    MalformedCatalog,
    /// No provider serves the target, or no artifact survived selection.
    UnsupportedTarget,
}

/// The runtime families that can be provisioned.
#[derive(Clone, Copy, Debug, PartialEq, Eq, Structural)]
pub enum Runtime {
    Java,
    Node,
}

/// A catalog provider together with its selection strategy.
#[derive(Clone, Copy, Debug, PartialEq, Eq, Structural)]
pub enum Provider {
    /// A flat JSON array of bundles; the first matching bundle wins.
    FlatRecords,
    /// The official HTML release table, filtered by version constraint.
    TabularListing,
    /// The JSON index of alternate builds, filtered by file suffix and
    /// version constraint.
    IndexedRecords,
}

/// Whether a target of the Node family is served by the index of
/// alternate builds: musl Linux and ARM64 Windows.
pub open spec fn needs_alternate_builds(t: Target) -> bool {
    (t.os == Os::Linux && t.is_musl()) || (t.os == Os::Windows && t.arch == Arch::Arm64)
}

/// The routing rule, stated as a relation between a runtime, a target and
/// a provider.
pub open spec fn routes_to(rt: Runtime, t: Target, p: Provider) -> bool {
    match rt {
        Runtime::Java => p == Provider::FlatRecords,
        Runtime::Node => if needs_alternate_builds(t) {
            p == Provider::IndexedRecords
        } else {
            p == Provider::TabularListing
        },
    }
}

/// The provider that serves a runtime on a target.
pub fn route(rt: Runtime, t: &Target) -> (p: Provider)
    ensures
        routes_to(rt, *t, p),
{
    match rt {
        Runtime::Java => Provider::FlatRecords,
        Runtime::Node => {
            let alternate = match (t.os, t.arch) {
                (Os::Linux, _) => t.musl(),
                (Os::Windows, Arch::Arm64) => true,
                _ => false,
            };
            if alternate {
                Provider::IndexedRecords
            } else {
                Provider::TabularListing
            }
        },
    }
}

/// Routing is total and unambiguous: every runtime and target are served by
/// exactly one provider.
pub proof fn lemma_routing_total(rt: Runtime, t: Target)
    ensures
        exists|p: Provider| routes_to(rt, t, p),
        forall|p: Provider, q: Provider| routes_to(rt, t, p) && routes_to(rt, t, q) ==> p == q,
{
    match rt {
        Runtime::Java => assert(routes_to(rt, t, Provider::FlatRecords)),
        Runtime::Node => if needs_alternate_builds(t) {
            assert(routes_to(rt, t, Provider::IndexedRecords));
        } else {
            assert(routes_to(rt, t, Provider::TabularListing));
        },
    }
}

} // verus!
