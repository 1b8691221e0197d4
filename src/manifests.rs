use vstd::prelude::*;

use semver::Version;

use crate::error::{invalid_manifest, LunaticError};
use crate::plugin::{kind_named, PluginKind};
use crate::text::{decimal, decimal_string};

verus! {

/// The manifest schemas this host reads.
#[derive(Clone, Copy, Debug, PartialEq, Eq, Structural)]
pub enum ManifestVersion {
    Unstable,
}

/// Schema 0 as decoded from the file: every field may be absent.
#[derive(Clone, Debug, PartialEq)]
pub struct UnstableManifestPre {
    pub name: Option<String>,
    pub kind: Option<String>,
    pub rust_ver: Option<Version>,
    pub display_name: Option<String>,
    pub src: Option<String>,
    pub requirements: Option<Vec<String>>,
    pub features: Option<Vec<String>>,
}

/// Schema 0 after validation: required fields present, defaults filled in.
#[derive(Clone, Debug, PartialEq)]
pub struct UnstableManifest {
    /// Canonical name.
    pub name: String,
    pub kind: PluginKind,
    /// Native host API version; its presence selects the native host API.
    pub rust_ver: Option<Version>,
    /// Name for display; the canonical name where the file gives none.
    pub display_name: String,
    /// Path of the shared library.
    pub src: String,
    pub requirements: Vec<String>,
    pub features: Vec<String>,
}

/// A validated manifest, by schema.
#[derive(Clone, Debug, PartialEq)]
pub enum Manifest {
    Unstable(UnstableManifest),
}

/// The reason given for a required field that the file leaves out.
pub open spec fn missing_field_reason(field: Seq<char>, hint: Seq<char>) -> Seq<char> {
    "field \""@ + field + "\" does not exist. "@ + hint
}

pub open spec fn name_missing_reason() -> Seq<char> {
    missing_field_reason("name"@, "Every plugin requires a canonical name."@)
}

/// The reason given for a required field that the file leaves empty.
pub open spec fn empty_field_reason(field: Seq<char>, hint: Seq<char>) -> Seq<char> {
    "field \""@ + field + "\" is empty. "@ + hint
}

pub open spec fn name_empty_reason() -> Seq<char> {
    empty_field_reason("name"@, "Every plugin requires a canonical name."@)
}

pub open spec fn src_missing_reason() -> Seq<char> {
    missing_field_reason("src"@, "Every plugin requires a binary to function."@)
}

pub open spec fn kind_missing_reason() -> Seq<char> {
    missing_field_reason(
        "kind"@,
        "Plugin manager has no way to know what kind of plugin it is for now."@,
    )
}

/// The reason given for a `kind` that names no plugin kind.
pub open spec fn kind_unknown_reason(k: Seq<char>) -> Seq<char> {
    "field \"kind\" holds \""@ + k + "\", which is none of none, callbacks, mpsc."@
}

/// The reason given for a schema version this host does not read.
pub open spec fn unknown_version_reason(n: nat) -> Seq<char> {
    "Unknown manifest version:"@ + decimal(n)
}

/// A list field, empty where the file leaves it out.
pub open spec fn list_or_empty(o: Option<Vec<String>>) -> Seq<String> {
    match o {
        Some(v) => v@,
        None => Seq::empty(),
    }
}

impl UnstableManifest {
    /// `self` holds what `pre` declares, with the defaults filled in.
    pub open spec fn built_from(self, pre: UnstableManifestPre) -> bool {
        &&& pre.name matches Some(n) && self.name@ == n@
        &&& pre.kind matches Some(k) && kind_named(k@) == Some(self.kind)
        &&& self.rust_ver == pre.rust_ver
        &&& self.display_name@ == match pre.display_name {
            Some(d) => d@,
            None => pre.name->0@,
        }
        &&& pre.src matches Some(s) && self.src@ == s@
        &&& self.requirements@ == list_or_empty(pre.requirements)
        &&& self.features@ == list_or_empty(pre.features)
    }
}

/// What validating `pre` gives, `src_exists` telling whether its `src` is on
/// disk. The checks run in order: `name` present, `src` present, the file
/// behind `src`, `kind` present and known, and last `name` non-empty.
pub open spec fn validation_outcome(
    pre: UnstableManifestPre,
    src_exists: bool,
    r: Result<UnstableManifest, LunaticError>,
) -> bool {
    if pre.name is None {
        r matches Err(e) && invalid_manifest(e, name_missing_reason())
    } else if pre.src is None {
        r matches Err(e) && invalid_manifest(e, src_missing_reason())
    } else if !src_exists {
        r matches Err(e) && e matches LunaticError::FileNotFound { path } && path@
            == pre.src->0@
    } else if pre.kind is None {
        r matches Err(e) && invalid_manifest(e, kind_missing_reason())
    } else if kind_named(pre.kind->0@) is None {
        r matches Err(e) && invalid_manifest(e, kind_unknown_reason(pre.kind->0@))
    } else if pre.name->0@.len() == 0 {
        r matches Err(e) && invalid_manifest(e, name_empty_reason())
    } else {
        r matches Ok(m) && m.built_from(pre)
    }
}

fn missing_field(field: &str, hint: &str) -> (r: LunaticError)
    ensures
        invalid_manifest(r, missing_field_reason(field@, hint@)),
{
    let mut reason = String::from_str("field \"");
    reason.append(field);
    reason.append("\" does not exist. ");
    reason.append(hint);
    LunaticError::InvalidManifest { reason }
}

fn empty_field(field: &str, hint: &str) -> (r: LunaticError)
    ensures
        invalid_manifest(r, empty_field_reason(field@, hint@)),
{
    let mut reason = String::from_str("field \"");
    reason.append(field);
    reason.append("\" is empty. ");
    reason.append(hint);
    LunaticError::InvalidManifest { reason }
}

fn unknown_kind(k: &str) -> (r: LunaticError)
    ensures
        invalid_manifest(r, kind_unknown_reason(k@)),
{
    let mut reason = String::from_str("field \"kind\" holds \"");
    reason.append(k);
    reason.append("\", which is none of none, callbacks, mpsc.");
    LunaticError::InvalidManifest { reason }
}

fn list_or_new(o: Option<Vec<String>>) -> (r: Vec<String>)
    ensures
        r@ == list_or_empty(o),
{
    match o {
        Some(v) => v,
        None => Vec::new(),
    }
}

impl UnstableManifest {
    /// Turns the permissive form into the strict one, or says which check
    /// failed. `src_exists` tells whether the declared `src` is on disk; it is
    /// read only once `name` and `src` are known to be present.
    pub fn validate(pre: UnstableManifestPre, src_exists: bool) -> (r: Result<
        UnstableManifest,
        LunaticError,
    >)
        ensures
            validation_outcome(pre, src_exists, r),
    {
        let UnstableManifestPre { name, kind, rust_ver, display_name, src, requirements, features } =
            pre;
        let name = match name {
            None => {
                return Err(
                    missing_field("name", "Every plugin requires a canonical name."),
                );
            },
            Some(n) => n,
        };
        let src = match src {
            None => {
                return Err(
                    missing_field("src", "Every plugin requires a binary to function."),
                );
            },
            Some(s) => s,
        };
        if !src_exists {
            return Err(LunaticError::FileNotFound { path: src });
        }
        let kind = match kind {
            None => {
                return Err(
                    missing_field(
                        "kind",
                        "Plugin manager has no way to know what kind of plugin it is for now.",
                    ),
                );
            },
            Some(k) => match PluginKind::parse(k.as_str()) {
                None => {
                    return Err(unknown_kind(k.as_str()));
                },
                Some(parsed) => parsed,
            },
        };
        if name.as_str().unicode_len() == 0 {
            return Err(empty_field("name", "Every plugin requires a canonical name."));
        }
        let display_name = match display_name {
            None => name.clone(),
            Some(d) => d,
        };
        Ok(UnstableManifest {
            name,
            kind,
            rust_ver,
            display_name,
            src,
            requirements: list_or_new(requirements),
            features: list_or_new(features),
        })
    }
}

impl Manifest {
    /// Reads the schema version that a manifest file declares. Only version 0
    /// is known; any other is refused with a reason that names it.
    pub fn check_version(manifest_version: u32) -> (r: Result<ManifestVersion, LunaticError>)
        ensures
            manifest_version == 0 <==> r == Ok::<ManifestVersion, LunaticError>(
                ManifestVersion::Unstable,
            ),
            manifest_version != 0 ==> (r matches Err(e) && invalid_manifest(
                e,
                unknown_version_reason(manifest_version as nat),
            )),
    {
        if manifest_version == 0 {
            Ok(ManifestVersion::Unstable)
        } else {
            let mut reason = String::from_str("Unknown manifest version:");
            let n = decimal_string(manifest_version);
            reason.append(n.as_str());
            Err(LunaticError::InvalidManifest { reason })
        }
    }

    /// Validates a schema 0 manifest (see `UnstableManifest::validate`). A
    /// failed check yields no manifest at all.
    pub fn from_unstable(pre: UnstableManifestPre, src_exists: bool) -> (r: Result<
        Manifest,
        LunaticError,
    >)
        ensures
            validation_outcome(
                pre,
                src_exists,
                match r {
                    Ok(Manifest::Unstable(m)) => Ok(m),
                    Err(e) => Err(e),
                },
            ),
            r matches Ok(Manifest::Unstable(m)) ==> {
                &&& m.name@.len() > 0
                &&& pre.display_name is None ==> m.display_name@ == m.name@
                &&& pre.requirements is None ==> m.requirements@.len() == 0
                &&& pre.features is None ==> m.features@.len() == 0
            },
    {
        match UnstableManifest::validate(pre, src_exists) {
            Ok(m) => Ok(Manifest::Unstable(m)),
            Err(e) => Err(e),
        }
    }

    pub open spec fn spec_src(&self) -> String {
        match self {
            Manifest::Unstable(m) => m.src,
        }
    }

    pub open spec fn spec_kind(&self) -> PluginKind {
        match self {
            Manifest::Unstable(m) => m.kind,
        }
    }

    /// Whether the manifest declares a native host API version.
    pub open spec fn spec_declares_native(&self) -> bool {
        match self {
            Manifest::Unstable(m) => m.rust_ver is Some,
        }
    }

    /// Path of the plugin's shared library.
    pub fn get_src(&self) -> (r: &String)
        ensures
            *r == self.spec_src(),
    {
        match self {
            Manifest::Unstable(m) => &m.src,
        }
    }

    pub fn get_kind(&self) -> (r: PluginKind)
        ensures
            r == self.spec_kind(),
    {
        match self {
            Manifest::Unstable(m) => m.kind,
        }
    }

    /// The schema the manifest was read with.
    pub fn get_version(&self) -> (r: ManifestVersion)
        ensures
            self is Unstable ==> r == ManifestVersion::Unstable,
    {
        match self {
            Manifest::Unstable(_) => ManifestVersion::Unstable,
        }
    }

    /// Whether the manifest declares a native host API version.
    pub fn declares_native(&self) -> (r: bool)
        ensures
            r == self.spec_declares_native(),
    {
        match self {
            Manifest::Unstable(m) => m.rust_ver.is_some(),
        }
    }
}

/// A missing-field reason names the field, right after `field "`.
pub proof fn lemma_missing_reason_names_field(field: Seq<char>, hint: Seq<char>)
    ensures
        missing_field_reason(field, hint).subrange(7, 7 + field.len() as int) == field,
{
    reveal_strlit("field \"");
    assert(missing_field_reason(field, hint).subrange(7, 7 + field.len() as int) =~= field);
}

/// An empty-field reason names the field, right after `field "`.
pub proof fn lemma_empty_reason_names_field(field: Seq<char>, hint: Seq<char>)
    ensures
        empty_field_reason(field, hint).subrange(7, 7 + field.len() as int) == field,
{
    reveal_strlit("field \"");
    assert(empty_field_reason(field, hint).subrange(7, 7 + field.len() as int) =~= field);
}

/// The reason given for an unknown schema version ends with that version in
/// decimal.
pub proof fn lemma_unknown_version_names_it(n: nat)
    ensures
        unknown_version_reason(n).subrange(25, unknown_version_reason(n).len() as int)
            == decimal(n),
{
    reveal_strlit("Unknown manifest version:");
    assert(unknown_version_reason(n).subrange(25, unknown_version_reason(n).len() as int)
        =~= decimal(n));
}

} // verus!
