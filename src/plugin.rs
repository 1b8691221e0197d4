use vstd::prelude::*;

use libloading::Library;
use serde_json::Value;

use crate::envelope::Envelope;
use crate::error::{LunaticError, NResult};
use crate::host_api::HostApi;
use crate::manifests::{Manifest, ManifestVersion};
use crate::queue::Queue;
use crate::text::same_text;

verus! {

/// How a plugin is reached: not at all, through callbacks exported by a
/// shared library, or through a message queue.
#[derive(Clone, Copy, Debug, PartialEq, Eq, Structural)]
pub enum PluginKind {
    Empty,
    Callbacks,
    Mpsc,
}

/// The plugin kind that a manifest spells `s`, if any.
pub open spec fn kind_named(s: Seq<char>) -> Option<PluginKind> {
    if s == "none"@ {
        Some(PluginKind::Empty)
    } else if s == "callbacks"@ {
        Some(PluginKind::Callbacks)
    } else if s == "mpsc"@ {
        Some(PluginKind::Mpsc)
    } else {
        None
    }
}

impl PluginKind {
    /// Reads the manifest spelling of a kind: `none`, `callbacks` or `mpsc`.
    pub fn parse(s: &str) -> (r: Option<PluginKind>)
        ensures
            r == kind_named(s@),
    {
        if same_text(s, "none") {
            Some(PluginKind::Empty)
        } else if same_text(s, "callbacks") {
            Some(PluginKind::Callbacks)
        } else if same_text(s, "mpsc") {
            Some(PluginKind::Mpsc)
        } else {
            None
        }
    }
}

/// Lifecycle of a plugin. Transitions are driven by the supervisor, never by
/// delivery.
#[derive(Clone, Copy, Debug, PartialEq, Eq, Structural)]
pub enum PluginState {
    Ready,
    Uninit,
    Busy,
    Unresponsive,
    Killed,
    Dead,
    Error,
}

impl PluginState {
    /// The number that stands for the state where it crosses a C boundary.
    pub open spec fn spec_code(self) -> u32 {
        match self {
            PluginState::Ready => 0,
            PluginState::Uninit => 1,
            PluginState::Busy => 2,
            PluginState::Unresponsive => 3,
            PluginState::Killed => 4,
            PluginState::Dead => 5,
            PluginState::Error => 6,
        }
    }

    pub fn code(self) -> (r: u32)
        ensures
            r == self.spec_code(),
    {
        match self {
            PluginState::Ready => 0,
            PluginState::Uninit => 1,
            PluginState::Busy => 2,
            PluginState::Unresponsive => 3,
            PluginState::Killed => 4,
            PluginState::Dead => 5,
            PluginState::Error => 6,
        }
    }

    /// The state numbered `n`, if `n` numbers one.
    pub fn from_code(n: u32) -> (r: Option<PluginState>)
        ensures
            n <= 6 <==> r is Some,
            r matches Some(s) ==> s.spec_code() == n,
    {
        match n {
            0 => Some(PluginState::Ready),
            1 => Some(PluginState::Uninit),
            2 => Some(PluginState::Busy),
            3 => Some(PluginState::Unresponsive),
            4 => Some(PluginState::Killed),
            5 => Some(PluginState::Dead),
            6 => Some(PluginState::Error),
            _ => None,
        }
    }

    pub open spec fn spec_is_terminal(self) -> bool {
        self is Killed || self is Dead || self is Error
    }

    /// Whether no further transition leaves this state.
    pub fn is_terminal(self) -> (r: bool)
        ensures
            r == self.spec_is_terminal(),
    {
        match self {
            PluginState::Killed | PluginState::Dead | PluginState::Error => true,
            _ => false,
        }
    }
}

/// Each state has its own number, and reading that number gives the state back.
pub proof fn lemma_state_code_round_trip(s: PluginState, t: PluginState)
    ensures
        s.spec_code() <= 6,
        s.spec_code() == t.spec_code() ==> s == t,
{
}

/// libloading's `Library`: a loaded shared library, carried as an opaque owner.
#[verifier::external_type_specification]
#[verifier::external_body]
pub struct ExLibrary(libloading::Library);

/// serde_json's `Value`: a plugin's configuration, passed through unread.
#[verifier::external_type_specification]
#[verifier::external_body]
pub struct ExValue(serde_json::Value);

/// The hooks a callback plugin's library may export, each resolved or absent.
/// `init` runs once after assembly, `receive` takes envelopes, `import`
/// restores state from a configuration value that `export` produced.
pub struct CallbackPluginUnstable<I, R, M, X> {
    pub init: Option<I>,
    pub receive: Option<R>,
    pub import: Option<M>,
    pub export: Option<X>,
}

pub enum CallbackPluginVersion<I, R, M, X> {
    Unstable(CallbackPluginUnstable<I, R, M, X>),
}

/// A loaded shared library together with the hooks resolved from it. The
/// hooks never leave this value, and the library is unloaded only when it is
/// dropped.
pub struct CallbackPlugin<I, R, M, X> {
    lib: Library,
    inner: CallbackPluginVersion<I, R, M, X>,
}

/// The reason given when the library at a plugin's `src` cannot be opened.
pub open spec fn load_failed_reason(cause: Seq<char>) -> Seq<char> {
    "Failed to load the plugin library: "@ + cause
}

impl<I, R, M, X> CallbackPlugin<I, R, M, X> where
    I: Fn() -> NResult,
    R: Fn(Envelope) -> NResult,
    M: Fn(Value) -> NResult,
    X: Fn() -> Value,
 {
    /// The hooks resolved from the library.
    pub closed spec fn hooks(&self) -> CallbackPluginUnstable<I, R, M, X> {
        match self.inner {
            CallbackPluginVersion::Unstable(h) => h,
        }
    }

    /// The library the hooks were resolved from.
    pub closed spec fn library(&self) -> Library {
        self.lib
    }

    /// Every resolved hook accepts every input.
    pub open spec fn wf(&self) -> bool {
        callable(self.hooks())
    }

    /// Assembles a callback plugin for `manifest` from the outcome of opening
    /// its library: the library with the hooks resolved from it, or the
    /// reason it could not be opened.
    pub fn load(
        manifest: &Manifest,
        opened: Result<(Library, CallbackPluginUnstable<I, R, M, X>), String>,
    ) -> (r: Result<Self, LunaticError>)
        requires
            opened matches Ok((_, h)) ==> callable(h),
        ensures
            opened matches Ok((lib, h)) ==> (r matches Ok(p) && p.library() == lib && p.hooks() == h
                && p.wf()),
            opened matches Err(cause) ==> (r matches Err(e) && e matches
                LunaticError::PluginLoadFailed { path, reason } && path@ == manifest.spec_src()@
                && reason@ == load_failed_reason(cause@)),
    {
        match opened {
            Err(cause) => {
                let mut reason = String::from_str("Failed to load the plugin library: ");
                reason.append(cause.as_str());
                Err(LunaticError::PluginLoadFailed { path: manifest.get_src().clone(), reason })
            },
            Ok((lib, hooks)) => {
                let inner = match manifest.get_version() {
                    ManifestVersion::Unstable => CallbackPluginVersion::Unstable(hooks),
                };
                Ok(CallbackPlugin { lib, inner })
            },
        }
    }

    /// Delivers an envelope through the `receive` hook. Without one the
    /// envelope comes back unchanged inside `PluginFailedMessage`.
    pub fn send(&self, envelope: Envelope) -> (r: NResult)
        requires
            self.wf(),
        ensures
            self.hooks().receive matches Some(f) ==> f.ensures((envelope,), r),
            self.hooks().receive is None ==> r == Err::<(), LunaticError>(
                LunaticError::PluginFailedMessage { envelope },
            ),
    {
        match &self.inner {
            CallbackPluginVersion::Unstable(h) => match &h.receive {
                Some(f) => f(envelope),
                None => Err(LunaticError::PluginFailedMessage { envelope }),
            },
        }
    }

    /// Runs the `init` hook, if the library exports one.
    pub fn init(&self) -> (r: Option<NResult>)
        requires
            self.wf(),
        ensures
            self.hooks().init is None <==> r is None,
            self.hooks().init matches Some(f) ==> (r matches Some(out) && f.ensures((), out)),
    {
        match &self.inner {
            CallbackPluginVersion::Unstable(h) => match &h.init {
                Some(f) => Some(f()),
                None => None,
            },
        }
    }

    /// Hands a configuration value, unchanged, to the `import` hook, if the
    /// library exports one.
    pub fn import_config(&self, value: Value) -> (r: Option<NResult>)
        requires
            self.wf(),
        ensures
            self.hooks().import is None <==> r is None,
            self.hooks().import matches Some(f) ==> (r matches Some(out) && f.ensures(
                (value,),
                out,
            )),
    {
        match &self.inner {
            CallbackPluginVersion::Unstable(h) => match &h.import {
                Some(f) => Some(f(value)),
                None => None,
            },
        }
    }

    /// The configuration value the `export` hook produces, if the library
    /// exports one; it is returned as the hook gave it.
    pub fn export_config(&self) -> (r: Option<Value>)
        requires
            self.wf(),
        ensures
            self.hooks().export is None <==> r is None,
            self.hooks().export matches Some(f) ==> (r matches Some(v) && f.ensures((), v)),
    {
        match &self.inner {
            CallbackPluginVersion::Unstable(h) => match &h.export {
                Some(f) => Some(f()),
                None => None,
            },
        }
    }
}

/// Every hook of `h` that is present accepts every input.
pub open spec fn callable<I, R, M, X>(h: CallbackPluginUnstable<I, R, M, X>) -> bool where
    I: Fn() -> NResult,
    R: Fn(Envelope) -> NResult,
    M: Fn(Value) -> NResult,
    X: Fn() -> Value,
 {
    &&& h.init matches Some(f) ==> f.requires(())
    &&& h.receive matches Some(f) ==> forall|e: Envelope| #[trigger] f.requires((e,))
    &&& h.import matches Some(f) ==> forall|v: Value| #[trigger] f.requires((v,))
    &&& h.export matches Some(f) ==> f.requires(())
}

/// What carries envelopes into a plugin; one variant per plugin, fixed at
/// construction.
pub enum PluginContent<I, R, M, X> {
    /// Takes every envelope and does nothing with it.
    Empty,
    /// A loaded library with its hooks.
    Callbacks(CallbackPlugin<I, R, M, X>),
    /// The sending half of a queue that a separate consumer drains.
    Sender(Queue),
}

impl<I, R, M, X> PluginContent<I, R, M, X> where
    I: Fn() -> NResult,
    R: Fn(Envelope) -> NResult,
    M: Fn(Value) -> NResult,
    X: Fn() -> Value,
 {
    pub open spec fn spec_kind(&self) -> PluginKind {
        match self {
            PluginContent::Empty => PluginKind::Empty,
            PluginContent::Callbacks(_) => PluginKind::Callbacks,
            PluginContent::Sender(_) => PluginKind::Mpsc,
        }
    }

    /// The plugin kind this content serves.
    pub fn kind(&self) -> (r: PluginKind)
        ensures
            r == self.spec_kind(),
    {
        match self {
            PluginContent::Empty => PluginKind::Empty,
            PluginContent::Callbacks(_) => PluginKind::Callbacks,
            PluginContent::Sender(_) => PluginKind::Mpsc,
        }
    }

    pub open spec fn wf(&self) -> bool {
        self matches PluginContent::Callbacks(c) ==> c.wf()
    }
}

/// The host API context of a plugin, selected once at construction.
#[derive(Clone, Copy, Debug, PartialEq, Eq, Structural)]
pub struct PluginContext {
    pub host_api: HostApi,
}

impl PluginContext {
    /// The context for a plugin declared by `manifest`: the native host API
    /// where the manifest declares a native API version, the C one otherwise.
    pub fn for_manifest(manifest: &Manifest) -> (r: PluginContext)
        ensures
            r.host_api == HostApi::spec_select(manifest.spec_declares_native()),
    {
        PluginContext { host_api: HostApi::select(manifest.declares_native()) }
    }
}

/// The uniform, bus-addressable unit.
pub struct Plugin<I, R, M, X> {
    manifest: Manifest,
    ctx: PluginContext,
    state: PluginState,
    inner: PluginContent<I, R, M, X>,
}

impl<I, R, M, X> Plugin<I, R, M, X> where
    I: Fn() -> NResult,
    R: Fn(Envelope) -> NResult,
    M: Fn(Value) -> NResult,
    X: Fn() -> Value,
 {
    pub closed spec fn spec_manifest(&self) -> Manifest {
        self.manifest
    }

    pub closed spec fn spec_host_api(&self) -> HostApi {
        self.ctx.host_api
    }

    pub closed spec fn spec_state(&self) -> PluginState {
        self.state
    }

    pub closed spec fn spec_content(&self) -> PluginContent<I, R, M, X> {
        self.inner
    }

    pub open spec fn wf(&self) -> bool {
        self.spec_content().wf()
    }

    /// Puts a plugin together in state `Uninit`.
    pub fn assemble(manifest: Manifest, ctx: PluginContext, inner: PluginContent<I, R, M, X>) -> (r:
        Self)
        ensures
            r.spec_manifest() == manifest,
            r.spec_host_api() == ctx.host_api,
            r.spec_state() == PluginState::Uninit,
            r.spec_content() == inner,
    {
        Plugin { manifest, ctx, state: PluginState::Uninit, inner }
    }

    pub fn manifest(&self) -> (r: &Manifest)
        ensures
            *r == self.spec_manifest(),
    {
        &self.manifest
    }

    pub fn host_api(&self) -> (r: HostApi)
        ensures
            r == self.spec_host_api(),
    {
        self.ctx.host_api
    }

    pub fn state(&self) -> (r: PluginState)
        ensures
            r == self.spec_state(),
    {
        self.state
    }

    pub fn content(&self) -> (r: &PluginContent<I, R, M, X>)
        ensures
            *r == self.spec_content(),
    {
        &self.inner
    }

    /// Delivery entry point. An `Empty` plugin takes every envelope; a queue
    /// takes it unless its consumer is gone, in which case the envelope comes
    /// back inside `ChannelClosed`; a callback plugin hands it to `send`.
    /// Delivery never changes the plugin's manifest, host API or state.
    pub fn receive(&mut self, envelope: Envelope) -> (r: NResult)
        requires
            old(self).wf(),
        ensures
            final(self).spec_manifest() == old(self).spec_manifest(),
            final(self).spec_host_api() == old(self).spec_host_api(),
            final(self).spec_state() == old(self).spec_state(),
            old(self).spec_content() is Empty ==> {
                &&& r == Ok::<(), LunaticError>(())
                &&& final(self).spec_content() == old(self).spec_content()
            },
            old(self).spec_content() matches PluginContent::Sender(q) ==> {
                &&& final(self).spec_content() matches PluginContent::Sender(q2)
                &&& r is Ok ==> q2.sent() == q.sent().push(envelope)
                &&& r is Err ==> q2.sent() == q.sent() && r == Err::<(), LunaticError>(
                    LunaticError::ChannelClosed { envelope },
                )
            },
            old(self).spec_content() matches PluginContent::Callbacks(c) ==> {
                &&& final(self).spec_content() == old(self).spec_content()
                &&& c.hooks().receive matches Some(f) ==> f.ensures((envelope,), r)
                &&& c.hooks().receive is None ==> r == Err::<(), LunaticError>(
                    LunaticError::PluginFailedMessage { envelope },
                )
            },
    {
        match &mut self.inner {
            PluginContent::Empty => Ok(()),
            PluginContent::Sender(queue) => match queue.send(envelope) {
                Ok(()) => Ok(()),
                Err(back) => Err(LunaticError::ChannelClosed { envelope: back }),
            },
            PluginContent::Callbacks(plugin) => plugin.send(envelope),
        }
    }
}

} // verus!
