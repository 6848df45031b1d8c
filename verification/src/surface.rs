//! The display: the configuration of the presentation surface, the identity
//! of the window it belongs to, and the host's GPU handles.

use crate::format::{choose_surface_format, is_preferred, srgb_flags};
use vstd::prelude::*;

verus! {

/// `wgpu::PresentMode`, a value that the crate carries and never looks into.
#[verifier::external_type_specification]
#[verifier::external_body]
pub struct ExPresentMode(wgpu::PresentMode);

/// `wgpu::CompositeAlphaMode`, a value that the crate carries and never
/// looks into.
#[verifier::external_type_specification]
#[verifier::external_body]
pub struct ExCompositeAlphaMode(wgpu::CompositeAlphaMode);

/// `winit::window::WindowId`, the identity of a window; the crate compares
/// two of them and never looks into one.
#[verifier::external_type_specification]
#[verifier::external_body]
pub struct ExWindowId(winit::window::WindowId);

/// How many frames may be queued for presentation at once.
pub const FRAMES_IN_FLIGHT: u32 = 2;

/// The ways in which the textures of a surface may be used.
#[derive(Clone, Copy, Debug, PartialEq, Eq, Structural)]
pub struct TextureUsage {
    pub copy_src: bool,
    pub copy_dst: bool,
    pub texture_binding: bool,
    pub storage_binding: bool,
    pub render_attachment: bool,
}

impl TextureUsage {
    /// Use as the target of a render pass, and nothing else.
    pub open spec fn spec_render_attachment() -> TextureUsage {
        TextureUsage {
            copy_src: false,
            copy_dst: false,
            texture_binding: false,
            storage_binding: false,
            render_attachment: true,
        }
    }

    #[verifier::when_used_as_spec(spec_render_attachment)]
    pub fn render_attachment() -> (usage: TextureUsage)
        ensures
            usage == Self::spec_render_attachment(),
    {
        TextureUsage {
            copy_src: false,
            copy_dst: false,
            texture_binding: false,
            storage_binding: false,
            render_attachment: true,
        }
    }
}

/// What a surface supports on the adapter in use, each list in the
/// adapter's order of preference.
#[derive(Debug)]
pub struct SurfaceCapabilities {
    pub formats: Vec<wgpu::TextureFormat>,
    pub present_modes: Vec<wgpu::PresentMode>,
    pub alpha_modes: Vec<wgpu::CompositeAlphaMode>,
}

impl SurfaceCapabilities {
    /// Every list offers at least one entry, so a configuration can be
    /// chosen.
    pub open spec fn usable(&self) -> bool {
        &&& self.formats@.len() > 0
        &&& self.present_modes@.len() > 0
        &&& self.alpha_modes@.len() > 0
    }

    /// Whether every list offers at least one entry.
    pub fn is_usable(&self) -> (usable: bool)
        ensures
            usable == self.usable(),
    {
        self.formats.len() > 0 && self.present_modes.len() > 0 && self.alpha_modes.len() > 0
    }
}

/// The configuration of a presentation surface.
#[derive(Debug)]
pub struct SurfaceConfig {
    pub usage: TextureUsage,
    pub format: wgpu::TextureFormat,
    pub width: u32,
    pub height: u32,
    pub present_mode: wgpu::PresentMode,
    pub alpha_mode: wgpu::CompositeAlphaMode,
    pub view_formats: Vec<wgpu::TextureFormat>,
    pub desired_maximum_frame_latency: u32,
}

impl SurfaceConfig {
    /// `self` is the configuration chosen for a surface with the given
    /// capabilities in a window of the given size.
    pub open spec fn chosen_for(&self, capabilities: SurfaceCapabilities, width: u32, height: u32) -> bool {
        &&& self.usage == TextureUsage::spec_render_attachment()
        &&& exists|i: int|
            is_preferred(srgb_flags(capabilities.formats@), i) && self.format
                == capabilities.formats@[i]
        &&& self.width == width
        &&& self.height == height
        &&& self.present_mode == capabilities.present_modes@[0]
        &&& self.alpha_mode == capabilities.alpha_modes@[0]
        &&& self.view_formats@.len() == 0
        &&& self.desired_maximum_frame_latency == FRAMES_IN_FLIGHT
    }

    /// This configuration with its dimensions replaced.
    pub open spec fn resized(self, width: u32, height: u32) -> SurfaceConfig {
        SurfaceConfig { width, height, ..self }
    }

    /// Chooses the configuration for a surface: render-attachment usage, the
    /// preferred format, the first listed present mode and alpha mode, no
    /// extra view formats, and two frames in flight.
    pub fn new(capabilities: &SurfaceCapabilities, width: u32, height: u32) -> (config: SurfaceConfig)
        requires
            capabilities.usable(),
        ensures
            config.chosen_for(*capabilities, width, height),
    {
        SurfaceConfig {
            usage: TextureUsage::render_attachment(),
            format: choose_surface_format(&capabilities.formats),
            width,
            height,
            present_mode: capabilities.present_modes[0],
            alpha_mode: capabilities.alpha_modes[0],
            view_formats: Vec::new(),
            desired_maximum_frame_latency: FRAMES_IN_FLIGHT,
        }
    }
}

/// A display: the host's GPU handles `H` (surface, window, device, queue),
/// the identity of the window, and the configuration of the surface.
pub struct Display<H> {
    pub handles: H,
    pub config: SurfaceConfig,
    pub window: winit::window::WindowId,
}

impl<H> Display<H> {
    /// Builds the display for a window of the given identity and size, with
    /// the configuration chosen from the surface's capabilities. The surface
    /// itself is not configured yet.
    pub fn new(
        handles: H,
        window: winit::window::WindowId,
        capabilities: &SurfaceCapabilities,
        width: u32,
        height: u32,
    ) -> (display: Display<H>)
        requires
            capabilities.usable(),
        ensures
            display.handles == handles,
            display.window == window,
            display.config.chosen_for(*capabilities, width, height),
    {
        Display { handles, config: SurfaceConfig::new(capabilities, width, height), window }
    }

    /// The identity of the window that this display presents to.
    pub fn window(&self) -> (window: winit::window::WindowId)
        ensures
            window == self.window,
    {
        self.window
    }

    /// This display with the dimensions of its configuration replaced.
    pub open spec fn resized(self, width: u32, height: u32) -> Display<H> {
        Display { config: self.config.resized(width, height), ..self }
    }

    /// Records a new size of the window in the stored configuration. The
    /// host must configure the surface with the stored configuration before
    /// it draws again.
    pub fn resize(&mut self, width: u32, height: u32)
        ensures
            *final(self) == old(self).resized(width, height),
    {
        self.config.width = width;
        self.config.height = height;
    }
}

} // verus!
