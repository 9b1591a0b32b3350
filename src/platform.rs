use vstd::prelude::*;
use crate::text::same_text;

verus! {

/// Settings of a general-purpose audio engine: sample rate, buffer size in
/// frames, input and output channel counts.
#[derive(Debug, Clone, Copy, PartialEq, Eq, Structural)]
pub struct AudioConfig {
    pub sample_rate: u32,
    pub buffer_size: u32,
    pub input_channels: u16,
    pub output_channels: u16,
}

impl Default for AudioConfig {
    /// 48 kHz, 256 frames (about 5 ms), stereo in and out.
    fn default() -> (r: AudioConfig)
        ensures
            r == (AudioConfig { sample_rate: 48000, buffer_size: 256, input_channels: 2, output_channels: 2 }),
    {
        AudioConfig { sample_rate: 48000, buffer_size: 256, input_channels: 2, output_channels: 2 }
    }
}

/// Graphics backends.
#[derive(Debug, Clone, Copy, PartialEq, Eq, Structural)]
pub enum GpuBackend {
    Metal,
    Vulkan,
    DirectX12,
    OpenGL,
    WebGPU,
}

/// The backend that suits a target operating system and architecture, if
/// the target is a supported one.
pub open spec fn backend_for(os: Seq<char>, arch: Seq<char>) -> Option<GpuBackend> {
    if os == "ios"@ || os == "macos"@ {
        Some(GpuBackend::Metal)
    } else if os == "android"@ || os == "linux"@ {
        Some(GpuBackend::Vulkan)
    } else if os == "windows"@ {
        Some(GpuBackend::DirectX12)
    } else if arch == "wasm32"@ {
        Some(GpuBackend::WebGPU)
    } else {
        None
    }
}

impl GpuBackend {
    /// Picks the backend for a target (as `std::env::consts::OS` and `ARCH`
    /// name it): Metal on Apple systems, Vulkan on Android and Linux,
    /// DirectX 12 on Windows, WebGPU on wasm32.
    pub fn auto_select(os: &str, arch: &str) -> (r: Option<GpuBackend>)
        ensures
            r == backend_for(os@, arch@),
    {
        if same_text(os, "ios") || same_text(os, "macos") {
            Some(GpuBackend::Metal)
        } else if same_text(os, "android") || same_text(os, "linux") {
            Some(GpuBackend::Vulkan)
        } else if same_text(os, "windows") {
            Some(GpuBackend::DirectX12)
        } else if same_text(arch, "wasm32") {
            Some(GpuBackend::WebGPU)
        } else {
            None
        }
    }
}

/// Settings of the visual renderer.
#[derive(Debug, Clone, Copy, PartialEq, Eq, Structural)]
pub struct VisualConfig {
    pub backend: GpuBackend,
    pub target_fps: u32,
    pub particle_count: u32,
    pub bio_reactive: bool,
    pub audio_reactive: bool,
}

impl VisualConfig {
    /// Defaults on `backend`: 60 frames per second, 10000 particles, bio-
    /// and audio-reactive.
    pub fn new(backend: GpuBackend) -> (r: VisualConfig)
        ensures
            r == (VisualConfig {
                backend,
                target_fps: 60,
                particle_count: 10000,
                bio_reactive: true,
                audio_reactive: true,
            }),
    {
        VisualConfig { backend, target_fps: 60, particle_count: 10000, bio_reactive: true, audio_reactive: true }
    }
}

} // verus!
