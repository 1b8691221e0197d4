use vstd::prelude::*;

use crate::error::LunaticError;

verus! {

/// The host API for plugins built against the host's own calling convention.
#[derive(Clone, Copy, Debug, PartialEq, Eq, Structural)]
pub struct HostApiVUnstable {
    /// API version.
    pub version: u32,
}

impl HostApiVUnstable {
    pub fn new() -> (r: Self)
        ensures
            r.version == 0,
    {
        HostApiVUnstable { version: 0 }
    }

    /// Answers a name query from the bus's lookup `found` of that name.
    pub fn resolve(query: &str, found: Option<u32>) -> (r: Result<u32, LunaticError>)
        ensures
            found matches Some(a) ==> r == Ok::<u32, LunaticError>(a),
            found is None ==> (r matches Err(e) && e matches LunaticError::UnresolvedName {
                name,
            } && name@ == query@),
    {
        match found {
            Some(a) => Ok(a),
            None => Err(LunaticError::UnresolvedName { name: query.to_string() }),
        }
    }
}

/// The version tag of the fixed-layout C host API table. This crate carries
/// only the tag; the table's entry points are not part of it.
#[derive(Clone, Copy, Debug, PartialEq, Eq, Structural)]
pub struct HostCApiVUnstable {
    /// API version; tells a plugin which fields of the table it may read.
    pub version: u32,
}

impl HostCApiVUnstable {
    pub fn new() -> (r: Self)
        ensures
            r.version == 0,
    {
        HostCApiVUnstable { version: 0 }
    }
}

#[derive(Clone, Copy, Debug, PartialEq, Eq, Structural)]
pub enum UnstableApi {
    Rust(HostApiVUnstable),
    C(HostCApiVUnstable),
}

/// The API a plugin calls back into the host with, fixed per plugin.
#[derive(Clone, Copy, Debug, PartialEq, Eq, Structural)]
pub enum HostApi {
    Unstable(UnstableApi),
}

impl HostApi {
    /// The variant chosen for a plugin that does (`native`) or does not
    /// declare a native API version.
    pub open spec fn spec_select(native: bool) -> HostApi {
        if native {
            HostApi::Unstable(UnstableApi::Rust(HostApiVUnstable { version: 0 }))
        } else {
            HostApi::Unstable(UnstableApi::C(HostCApiVUnstable { version: 0 }))
        }
    }

    pub fn select(native: bool) -> (r: HostApi)
        ensures
            r == HostApi::spec_select(native),
    {
        if native {
            HostApi::Unstable(UnstableApi::Rust(HostApiVUnstable::new()))
        } else {
            HostApi::Unstable(UnstableApi::C(HostCApiVUnstable::new()))
        }
    }

    /// Whether this is the native (in-process) variant.
    pub fn is_native(&self) -> (r: bool)
        ensures
            r == (*self is Unstable && self->Unstable_0 is Rust),
    {
        match self {
            HostApi::Unstable(UnstableApi::Rust(_)) => true,
            HostApi::Unstable(UnstableApi::C(_)) => false,
        }
    }
}

} // verus!
