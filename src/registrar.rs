use vstd::prelude::*;

use serde_json::Value;

use crate::envelope::Envelope;
use crate::error::{invalid_manifest, LunaticError, NResult};
use crate::host_api::HostApi;
use crate::manifests::Manifest;
use crate::plugin::{Plugin, PluginContent, PluginContext, PluginState};

verus! {

/// A manifest that failed to load, as the registrar reports it: an
/// `InvalidManifest` whose reason is the failure in words.
pub fn manifest_failure(e: LunaticError) -> (r: LunaticError)
    ensures
        invalid_manifest(r, e.spec_describe()),
{
    LunaticError::InvalidManifest { reason: e.describe() }
}

/// Assembles a plugin from its validated manifest and the content built for
/// the manifest's kind: the host API follows from whether the manifest
/// declares a native API version, and the plugin starts `Uninit`.
pub fn register_plugin<I, R, M, X>(manifest: Manifest, inner: PluginContent<I, R, M, X>) -> (r:
    Plugin<I, R, M, X>) where
    I: Fn() -> NResult,
    R: Fn(Envelope) -> NResult,
    M: Fn(Value) -> NResult,
    X: Fn() -> Value,

    requires
        inner.spec_kind() == manifest.spec_kind(),
    ensures
        r.spec_manifest() == manifest,
        r.spec_host_api() == HostApi::spec_select(manifest.spec_declares_native()),
        r.spec_state() == PluginState::Uninit,
        r.spec_content() == inner,
        inner.wf() ==> r.wf(),
{
    let ctx = PluginContext::for_manifest(&manifest);
    Plugin::assemble(manifest, ctx, inner)
}

} // verus!
