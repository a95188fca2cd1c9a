//! The presentation surface: its configuration, and what acquiring a frame
//! texture from it can report.

use vstd::prelude::*;

verus! {

/// Trusted: the outside enum `wgpu::TextureFormat`, carried as an opaque
/// value. Nothing is claimed of it; the library only hands a format on.
#[verifier::external_type_specification]
#[verifier::external_body]
pub struct ExTextureFormat(wgpu::TextureFormat);

/// Trusted: the outside enum `wgpu::SurfaceError`, carried as an opaque
/// value until [`Acquisition::from_surface_error`] has told its variants
/// apart.
#[verifier::external_type_specification]
#[verifier::external_body]
pub struct ExSurfaceError(wgpu::SurfaceError);

/// What a surface texture may be used for.
#[derive(Clone, Copy, Debug, PartialEq, Eq, Structural)]
pub enum TextureUsage {
    CopySrc,
    CopyDst,
    TextureBinding,
    StorageBinding,
    RenderAttachment,
}

/// How presented frames are paced against the display.
#[derive(Clone, Copy, Debug, PartialEq, Eq, Structural)]
pub enum PresentMode {
    Immediate,
    Mailbox,
    Fifo,
}

/// The configuration that binds a format, a size and a pacing to a surface.
#[derive(Clone, Copy, Debug, PartialEq, Eq)]
pub struct SurfaceConfiguration {
    pub usage: TextureUsage,
    pub format: wgpu::TextureFormat,
    pub width: u32,
    pub height: u32,
    pub present_mode: PresentMode,
}

impl SurfaceConfiguration {
    /// The configuration for presenting rendered frames of the given format
    /// and size: a render attachment, paced by the display's refresh.
    pub open spec fn presenting(
        format: wgpu::TextureFormat,
        width: u32,
        height: u32,
    ) -> SurfaceConfiguration {
        SurfaceConfiguration {
            usage: TextureUsage::RenderAttachment,
            format,
            width,
            height,
            present_mode: PresentMode::Fifo,
        }
    }

    /// Builds [`SurfaceConfiguration::presenting`].
    pub fn for_presentation(format: wgpu::TextureFormat, width: u32, height: u32) -> (config:
        SurfaceConfiguration)
        ensures
            config == SurfaceConfiguration::presenting(format, width, height),
    {
        SurfaceConfiguration {
            usage: TextureUsage::RenderAttachment,
            format,
            width,
            height,
            present_mode: PresentMode::Fifo,
        }
    }
}

/// Why no frame texture could be acquired.
#[derive(Clone, Copy, Debug, PartialEq, Eq, Structural)]
pub enum AcquireError {
    /// The wait for the next frame timed out.
    Timeout,
    /// The surface has changed under the swap chain.
    Outdated,
    /// The swap chain has been lost.
    Lost,
    /// No memory is left for a new frame.
    OutOfMemory,
}

/// The outcome of asking the surface for its next frame texture.
#[derive(Clone, Copy, Debug, PartialEq, Eq, Structural)]
pub enum Acquisition {
    /// A texture was acquired and is held by the host.
    Ready,
    /// No texture was acquired.
    Failed(AcquireError),
}

/// Trusted: tells the four variants of `wgpu::SurfaceError` apart, one arm
/// each. The argument is opaque here, so nothing is stated of the result.
#[verifier::external_body]
fn surface_error_kind(error: &wgpu::SurfaceError) -> (kind: AcquireError) {
    match error {
        wgpu::SurfaceError::Timeout => AcquireError::Timeout,
        wgpu::SurfaceError::Outdated => AcquireError::Outdated,
        wgpu::SurfaceError::Lost => AcquireError::Lost,
        wgpu::SurfaceError::OutOfMemory => AcquireError::OutOfMemory,
    }
}

impl AcquireError {
    /// A timeout is transient: the frame is skipped and the next tick tries
    /// again. Every other error ends the program.
    pub open spec fn is_transient(self) -> bool {
        self == AcquireError::Timeout
    }

    /// Whether this error only costs one frame.
    pub fn transient(&self) -> (t: bool)
        ensures
            t == self.is_transient(),
    {
        match self {
            AcquireError::Timeout => true,
            AcquireError::Outdated => false,
            AcquireError::Lost => false,
            AcquireError::OutOfMemory => false,
        }
    }

    /// The sentence that describes this error.
    pub fn message(&self) -> (text: &'static str)
        ensures
            text@ == self.message_spec()@,
    {
        match self {
            AcquireError::Timeout => {
                "A timeout was encountered while trying to acquire the next frame"
            },
            AcquireError::Outdated => {
                "The underlying surface has changed, and therefore the swap chain must be updated"
            },
            AcquireError::Lost => "The swap chain has been lost and needs to be recreated",
            AcquireError::OutOfMemory => "There is no more memory left to allocate a new frame",
        }
    }

    /// The text of [`AcquireError::message`].
    pub open spec fn message_spec(self) -> &'static str {
        match self {
            AcquireError::Timeout => {
                "A timeout was encountered while trying to acquire the next frame"
            },
            AcquireError::Outdated => {
                "The underlying surface has changed, and therefore the swap chain must be updated"
            },
            AcquireError::Lost => "The swap chain has been lost and needs to be recreated",
            AcquireError::OutOfMemory => "There is no more memory left to allocate a new frame",
        }
    }
}

impl Acquisition {
    /// The outcome that stands for a failed acquisition reported by the
    /// surface. Which error it names is decided by the outside value; it is
    /// never `Ready`.
    pub fn from_surface_error(error: &wgpu::SurfaceError) -> (outcome: Acquisition)
        ensures
            outcome is Failed,
    {
        Acquisition::Failed(surface_error_kind(error))
    }
}

} // verus!
