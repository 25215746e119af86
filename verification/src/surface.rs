//! The presentation surface: what it can do, and how it is configured.

use crate::error::FatalError;
use vstd::prelude::*;

verus! {

/// wgpu's pixel format of a texture. The library never looks inside one: it
/// takes formats from a capability list and hands them on unchanged.
#[verifier::external_type_specification]
#[verifier::external_body]
pub struct ExTextureFormat(wgpu::TextureFormat);

/// How finished frames reach the screen.
#[derive(Clone, Copy, Debug, PartialEq, Eq, Structural)]
pub enum PresentMode {
    AutoVsync,
    AutoNoVsync,
    Fifo,
    FifoRelaxed,
    Immediate,
    Mailbox,
}

/// How the compositor treats the alpha channel of a frame.
#[derive(Clone, Copy, Debug, PartialEq, Eq, Structural)]
pub enum CompositeAlphaMode {
    Auto,
    Opaque,
    PreMultiplied,
    PostMultiplied,
    Inherit,
}

impl Default for CompositeAlphaMode {
    fn default() -> (mode: Self)
        ensures
            mode == CompositeAlphaMode::Auto,
    {
        CompositeAlphaMode::Auto
    }
}

/// What an adapter supports on a surface, each list in the adapter's order of
/// preference.
pub struct SurfaceCapabilities {
    pub formats: Vec<wgpu::TextureFormat>,
    pub present_modes: Vec<PresentMode>,
    pub alpha_modes: Vec<CompositeAlphaMode>,
}

/// The first entry of `list`, or `fallback` where the list is empty.
pub open spec fn first_or<T>(list: Seq<T>, fallback: T) -> T {
    if list.len() > 0 {
        list[0]
    } else {
        fallback
    }
}

/// A surface configuration as plain data.
pub struct SurfaceConfigView {
    pub format: wgpu::TextureFormat,
    pub width: u32,
    pub height: u32,
    pub present_mode: PresentMode,
    pub alpha_mode: CompositeAlphaMode,
}

impl SurfaceConfigView {
    /// A configured surface covers at least one pixel.
    pub open spec fn wf(self) -> bool {
        self.width > 0 && self.height > 0
    }

    /// The configuration after a resize request: a request with a zero
    /// dimension changes nothing, any other replaces the size and nothing else.
    pub open spec fn resized(self, width: u32, height: u32) -> SurfaceConfigView {
        if width == 0 || height == 0 {
            self
        } else {
            SurfaceConfigView { width, height, ..self }
        }
    }

    /// The configuration chosen for a surface with capabilities `formats`,
    /// `present_modes` and `alpha_modes`: the first entry of each list, with
    /// FIFO presentation and the automatic alpha mode standing in for an
    /// empty list.
    pub open spec fn chosen(
        formats: Seq<wgpu::TextureFormat>,
        present_modes: Seq<PresentMode>,
        alpha_modes: Seq<CompositeAlphaMode>,
        width: u32,
        height: u32,
    ) -> SurfaceConfigView {
        SurfaceConfigView {
            format: formats[0],
            width,
            height,
            present_mode: first_or(present_modes, PresentMode::Fifo),
            alpha_mode: first_or(alpha_modes, CompositeAlphaMode::Auto),
        }
    }
}

/// The configuration of a presentation surface. It always covers at least one
/// pixel.
#[derive(Clone, Copy, Debug)]
pub struct SurfaceConfig {
    format: wgpu::TextureFormat,
    width: u32,
    height: u32,
    present_mode: PresentMode,
    alpha_mode: CompositeAlphaMode,
}

impl View for SurfaceConfig {
    type V = SurfaceConfigView;

    closed spec fn view(&self) -> SurfaceConfigView {
        SurfaceConfigView {
            format: self.format,
            width: self.width,
            height: self.height,
            present_mode: self.present_mode,
            alpha_mode: self.alpha_mode,
        }
    }
}

impl SurfaceConfig {
    #[verifier::type_invariant]
    pub open spec fn inv(self) -> bool {
        self@.wf()
    }

    /// Chooses the configuration for a window of `width` by `height` pixels
    /// from what the adapter supports. Only a surface without any format is
    /// refused.
    pub fn configure(caps: &SurfaceCapabilities, width: u32, height: u32) -> (chosen: Result<
        SurfaceConfig,
        FatalError,
    >)
        requires
            width > 0,
            height > 0,
        ensures
            caps.formats@.len() == 0 ==> chosen == Err::<SurfaceConfig, FatalError>(
                FatalError::NoSurfaceFormat,
            ),
            caps.formats@.len() > 0 ==> chosen is Ok && chosen->Ok_0@
                == SurfaceConfigView::chosen(
                caps.formats@,
                caps.present_modes@,
                caps.alpha_modes@,
                width,
                height,
            ),
    {
        if caps.formats.len() == 0 {
            return Err(FatalError::NoSurfaceFormat);
        }
        let present_mode = if caps.present_modes.len() > 0 {
            caps.present_modes[0]
        } else {
            PresentMode::Fifo
        };
        let alpha_mode = if caps.alpha_modes.len() > 0 {
            caps.alpha_modes[0]
        } else {
            CompositeAlphaMode::default()
        };
        Ok(SurfaceConfig { format: caps.formats[0], width, height, present_mode, alpha_mode })
    }

    /// Takes a new window size. A size with a zero dimension, as a minimised
    /// window reports it, is ignored; any other replaces the stored size.
    /// Returns whether the size was taken, that is, whether the surface has to
    /// be configured again.
    pub fn reconfigure(&mut self, width: u32, height: u32) -> (accepted: bool)
        ensures
            final(self)@ == old(self)@.resized(width, height),
            accepted == (width != 0 && height != 0),
    {
        if width == 0 || height == 0 {
            return false;
        }
        proof {
            use_type_invariant(&*self);
        }
        self.width = width;
        self.height = height;
        true
    }

    pub fn format(&self) -> (format: wgpu::TextureFormat)
        ensures
            format == self@.format,
    {
        self.format
    }

    pub fn width(&self) -> (width: u32)
        ensures
            width == self@.width,
            width > 0,
    {
        proof {
            use_type_invariant(self);
        }
        self.width
    }

    pub fn height(&self) -> (height: u32)
        ensures
            height == self@.height,
            height > 0,
    {
        proof {
            use_type_invariant(self);
        }
        self.height
    }

    pub fn present_mode(&self) -> (mode: PresentMode)
        ensures
            mode == self@.present_mode,
    {
        self.present_mode
    }

    pub fn alpha_mode(&self) -> (mode: CompositeAlphaMode)
        ensures
            mode == self@.alpha_mode,
    {
        self.alpha_mode
    }
}

} // verus!
