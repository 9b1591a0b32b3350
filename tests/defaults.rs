use coherence_core::platform::{AudioConfig, GpuBackend, VisualConfig};

#[test]
fn test_audio_config_default() {
    let config = AudioConfig::default();
    assert_eq!(config.sample_rate, 48000);
    assert_eq!(config.buffer_size, 256);
}

#[test]
fn test_backend_selection() {
    let backend = GpuBackend::auto_select("ios", "aarch64");
    println!("Auto-selected backend: {:?}", backend);
    assert_eq!(backend, Some(GpuBackend::Metal));

    let backend = GpuBackend::auto_select("android", "aarch64");
    assert_eq!(backend, Some(GpuBackend::Vulkan));
}

#[test]
fn test_visual_config() {
    let config = VisualConfig::new(GpuBackend::Vulkan);
    assert_eq!(config.target_fps, 60);
    assert_eq!(config.particle_count, 10000);
}

#[test]
fn test_render_pipeline_creation() {
    // Needs a GPU context; the renderer is exercised elsewhere.
}

#[test]
fn backend_for_other_targets() {
    assert_eq!(GpuBackend::auto_select("macos", "aarch64"), Some(GpuBackend::Metal));
    assert_eq!(GpuBackend::auto_select("linux", "x86_64"), Some(GpuBackend::Vulkan));
    assert_eq!(GpuBackend::auto_select("windows", "x86_64"), Some(GpuBackend::DirectX12));
    assert_eq!(GpuBackend::auto_select("unknown", "wasm32"), Some(GpuBackend::WebGPU));
    assert_eq!(GpuBackend::auto_select("haiku", "x86_64"), None);
}
