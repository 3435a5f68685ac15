use vfx_ocio::gpu::GpuLanguage;

#[test]
fn test_gpu_language_version() {
    assert!(GpuLanguage::Glsl330.version_directive().contains("330"));
    assert!(GpuLanguage::GlslEs300.version_directive().contains("300 es"));
}

#[test]
fn test_gpu_language_is_glsl() {
    assert!(GpuLanguage::Glsl330.is_glsl());
    assert!(GpuLanguage::GlslEs300.is_glsl());
    assert!(!GpuLanguage::Hlsl50.is_glsl());
    assert!(!GpuLanguage::Metal.is_glsl());
}
