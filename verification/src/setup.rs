//! Negotiating a device for a surface.
//!
//! The host binds a surface to its window, asks for an adapter that can
//! present to it, asks that adapter for a device and a queue, asks the surface
//! which format it prefers, and configures the surface. Each of these is a
//! call that only the host can make. What is asked for, in which order, and
//! what is done when an answer is missing, is decided here: the host performs
//! the action it is given and reports what came of it.

use vstd::prelude::*;
use crate::renderer::{Renderer, RendererState};
use crate::surface::SurfaceConfiguration;

verus! {

/// The graphics interface that the device is taken from.
#[derive(Clone, Copy, Debug, PartialEq, Eq, Structural)]
pub enum Backend {
    Vulkan,
    Metal,
    Dx12,
    Dx11,
    Gl,
    BrowserWebGpu,
}

/// Which adapter is preferred where there are several.
#[derive(Clone, Copy, Debug, PartialEq, Eq, Structural)]
pub enum PowerPreference {
    LowPower,
    HighPerformance,
}

/// A named set of device limits.
#[derive(Clone, Copy, Debug, PartialEq, Eq, Structural)]
pub enum LimitsPreset {
    Default,
    Downlevel,
    DownlevelWebgl2,
}

/// What is asked of an adapter.
#[derive(Clone, Copy, Debug, PartialEq, Eq, Structural)]
pub struct AdapterRequest {
    pub power_preference: PowerPreference,
    /// Accept nothing but a software adapter.
    pub force_fallback_adapter: bool,
    /// The adapter must be able to present to the surface that was bound.
    pub compatible_surface: bool,
}

/// What is asked of a device.
#[derive(Clone, Copy, Debug, PartialEq, Eq)]
pub struct DeviceRequest {
    pub label: &'static str,
    /// The optional features to enable, as a bit mask.
    pub features: u64,
    pub limits: LimitsPreset,
}

/// Why there is no renderer.
#[derive(Clone, Copy, Debug, PartialEq, Eq, Structural)]
pub enum SetupError {
    /// No adapter can present to the surface.
    NoAdapter,
    /// The adapter gave no device.
    DeviceRejected,
    /// The surface has no format for the adapter.
    IncompatibleSurface,
    /// The host reported something that was not asked for.
    UnexpectedEvent,
}

/// What the host reports.
#[derive(Clone, Copy, Debug, PartialEq, Eq)]
pub enum SetupEvent {
    /// The surface is bound to the window.
    SurfaceBound,
    /// The request for an adapter has been answered.
    Adapter { found: bool },
    /// The request for a device has been answered.
    Device { granted: bool },
    /// The surface's preferred format for the adapter, if it has one, and
    /// the size of the window's drawable area.
    Surface { preferred_format: Option<wgpu::TextureFormat>, width: u32, height: u32 },
}

/// What the host does next.
#[derive(Clone, Copy, Debug, PartialEq, Eq)]
pub enum SetupAction {
    /// Bind a surface of this backend to the window.
    BindSurface(Backend),
    /// Ask for an adapter.
    RequestAdapter(AdapterRequest),
    /// Ask the adapter for a device and its queue.
    RequestDevice(DeviceRequest),
    /// Ask the surface for its preferred format and the window for its size.
    QuerySurface,
    /// Configure the surface. The negotiation is complete.
    Configure(SurfaceConfiguration),
    /// Give up.
    Abort(SetupError),
}

/// How far a negotiation has come.
#[derive(Clone, Copy, Debug, PartialEq, Eq)]
pub enum SetupState {
    AwaitingSurface,
    AwaitingAdapter,
    AwaitingDevice,
    AwaitingFormat,
    Ready { format: wgpu::TextureFormat, width: u32, height: u32 },
    Failed(SetupError),
}

/// A state with the action that led to it.
#[derive(Clone, Copy, Debug, PartialEq, Eq)]
pub struct SetupStep {
    pub state: SetupState,
    pub action: SetupAction,
}

/// Trusted: `wgpu::PowerPreference::default()`, whose two variants are told
/// apart. The outside source gives the default as `LowPower`.
#[verifier::external_body]
fn default_power_preference() -> (preference: PowerPreference)
    ensures
        preference == PowerPreference::LowPower,
{
    match wgpu::PowerPreference::default() {
        wgpu::PowerPreference::LowPower => PowerPreference::LowPower,
        wgpu::PowerPreference::HighPerformance => PowerPreference::HighPerformance,
    }
}

/// Trusted: the bits of `wgpu::Features::default()`. The outside type is a
/// set of flags over a `u64` whose `Default` is derived, so the default is
/// the empty set.
#[verifier::external_body]
fn default_features() -> (bits: u64)
    ensures
        bits == 0,
{
    wgpu::Features::default().bits()
}

impl AdapterRequest {
    /// The first adapter of the default power preference that can present
    /// to the surface; a software adapter is not forced.
    pub open spec fn compatible() -> AdapterRequest {
        AdapterRequest {
            power_preference: PowerPreference::LowPower,
            force_fallback_adapter: false,
            compatible_surface: true,
        }
    }

    /// Builds [`AdapterRequest::compatible`].
    pub fn for_surface() -> (request: AdapterRequest)
        ensures
            request == AdapterRequest::compatible(),
    {
        AdapterRequest {
            power_preference: default_power_preference(),
            force_fallback_adapter: false,
            compatible_surface: true,
        }
    }
}

impl DeviceRequest {
    /// A device with no optional feature and the default limits.
    pub open spec fn plain() -> DeviceRequest {
        DeviceRequest { label: "gltut Device", features: 0, limits: LimitsPreset::Default }
    }

    /// Builds [`DeviceRequest::plain`].
    pub fn with_defaults() -> (request: DeviceRequest)
        ensures
            request == DeviceRequest::plain(),
    {
        DeviceRequest {
            label: "gltut Device",
            features: default_features(),
            limits: LimitsPreset::Default,
        }
    }
}

impl SetupStep {
    /// The negotiation has failed.
    pub open spec fn failed(error: SetupError) -> SetupStep {
        SetupStep { state: SetupState::Failed(error), action: SetupAction::Abort(error) }
    }
}

impl SetupState {
    /// Where a negotiation starts: the host is to bind the surface.
    pub open spec fn start(backend: Backend) -> SetupStep {
        SetupStep { state: SetupState::AwaitingSurface, action: SetupAction::BindSurface(backend) }
    }

    /// The next state and action. Each answer that was waited for leads one
    /// step on, or to failure if it is empty. A failed negotiation stays
    /// failed. Any other report fails the negotiation as unexpected.
    pub open spec fn on(self, event: SetupEvent) -> SetupStep {
        match (self, event) {
            (SetupState::Failed(error), _) => SetupStep::failed(error),
            (SetupState::AwaitingSurface, SetupEvent::SurfaceBound) => SetupStep {
                state: SetupState::AwaitingAdapter,
                action: SetupAction::RequestAdapter(AdapterRequest::compatible()),
            },
            (SetupState::AwaitingAdapter, SetupEvent::Adapter { found }) => if found {
                SetupStep {
                    state: SetupState::AwaitingDevice,
                    action: SetupAction::RequestDevice(DeviceRequest::plain()),
                }
            } else {
                SetupStep::failed(SetupError::NoAdapter)
            },
            (SetupState::AwaitingDevice, SetupEvent::Device { granted }) => if granted {
                SetupStep { state: SetupState::AwaitingFormat, action: SetupAction::QuerySurface }
            } else {
                SetupStep::failed(SetupError::DeviceRejected)
            },
            (
                SetupState::AwaitingFormat,
                SetupEvent::Surface { preferred_format, width, height },
            ) => match preferred_format {
                Some(format) => SetupStep {
                    state: SetupState::Ready { format, width, height },
                    action: SetupAction::Configure(
                        SurfaceConfiguration::presenting(format, width, height),
                    ),
                },
                None => SetupStep::failed(SetupError::IncompatibleSurface),
            },
            _ => SetupStep::failed(SetupError::UnexpectedEvent),
        }
    }

    /// The renderer that a completed negotiation gives.
    pub open spec fn renderer(self) -> Option<RendererState> {
        match self {
            SetupState::Ready { format, width, height } => Some(
                RendererState::fresh(format, width, height),
            ),
            _ => None,
        }
    }

    /// Starts a negotiation.
    pub fn begin(backend: Backend) -> (step: SetupStep)
        ensures
            step == SetupState::start(backend),
    {
        SetupStep { state: SetupState::AwaitingSurface, action: SetupAction::BindSurface(backend) }
    }

    /// Takes the host's report and decides what comes next.
    pub fn advance(self, event: SetupEvent) -> (step: SetupStep)
        ensures
            step == self.on(event),
    {
        match (self, event) {
            (SetupState::Failed(error), _) => Self::fail(error),
            (SetupState::AwaitingSurface, SetupEvent::SurfaceBound) => SetupStep {
                state: SetupState::AwaitingAdapter,
                action: SetupAction::RequestAdapter(AdapterRequest::for_surface()),
            },
            (SetupState::AwaitingAdapter, SetupEvent::Adapter { found }) => if found {
                SetupStep {
                    state: SetupState::AwaitingDevice,
                    action: SetupAction::RequestDevice(DeviceRequest::with_defaults()),
                }
            } else {
                Self::fail(SetupError::NoAdapter)
            },
            (SetupState::AwaitingDevice, SetupEvent::Device { granted }) => if granted {
                SetupStep { state: SetupState::AwaitingFormat, action: SetupAction::QuerySurface }
            } else {
                Self::fail(SetupError::DeviceRejected)
            },
            (
                SetupState::AwaitingFormat,
                SetupEvent::Surface { preferred_format, width, height },
            ) => match preferred_format {
                Some(format) => SetupStep {
                    state: SetupState::Ready { format, width, height },
                    action: SetupAction::Configure(
                        SurfaceConfiguration::for_presentation(format, width, height),
                    ),
                },
                None => Self::fail(SetupError::IncompatibleSurface),
            },
            _ => Self::fail(SetupError::UnexpectedEvent),
        }
    }

    fn fail(error: SetupError) -> (step: SetupStep)
        ensures
            step == SetupStep::failed(error),
    {
        SetupStep { state: SetupState::Failed(error), action: SetupAction::Abort(error) }
    }

    /// The renderer of the surface, once the negotiation is complete; until
    /// then, and after a failure, there is none.
    pub fn into_renderer(self) -> (renderer: Option<Renderer>)
        ensures
            match renderer {
                Some(r) => self.renderer() == Some(r@),
                None => self.renderer() is None,
            },
    {
        match self {
            SetupState::Ready { format, width, height } => Some(
                Renderer::new(format, width, height),
            ),
            _ => None,
        }
    }
}

} // verus!
