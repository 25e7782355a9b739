use grainforge::compute_pipeline::combined_source;
use grainforge::compute_pipeline::grain_source;
use grainforge::compute_pipeline::noise_source;
use grainforge::grain_renderer::GrainParams;
use grainforge::grain_renderer::dispatch_size;

#[test]
fn dispatch_size_is_the_ceiling_of_an_eighth() {
    assert_eq!(dispatch_size(1), 1);
    assert_eq!(dispatch_size(8), 1);
    assert_eq!(dispatch_size(9), 2);
    assert_eq!(dispatch_size(64), 8);
    assert_eq!(dispatch_size(65), 9);
}

#[test]
fn dispatch_size_of_the_default_surface() {
    assert_eq!(dispatch_size(512), 64);
}

#[test]
fn default_params_hold_the_documented_float_bits() {
    let p = GrainParams::default();
    assert_eq!(p.grain_amount, 0.5f32.to_bits());
    assert_eq!(p.grain_size, 1.0f32.to_bits());
    assert_eq!(p.width, 512.0f32.to_bits());
    assert_eq!(p.height, 512.0f32.to_bits());
    assert_eq!(p.seed, 0.0f32.to_bits());
}

#[test]
fn uniform_record_is_32_bytes_of_five_words_and_padding() {
    let p = GrainParams {
        grain_amount: 0.5f32.to_bits(),
        grain_size: 1.0f32.to_bits(),
        width: 64.0f32.to_bits(),
        height: 64.0f32.to_bits(),
        seed: 0.0f32.to_bits(),
    };
    let bytes = p.to_bytes();
    assert_eq!(bytes.len(), 32);
    let mut expected = Vec::new();
    expected.extend_from_slice(&0.5f32.to_bits().to_le_bytes());
    expected.extend_from_slice(&1.0f32.to_bits().to_le_bytes());
    expected.extend_from_slice(&64.0f32.to_bits().to_le_bytes());
    expected.extend_from_slice(&64.0f32.to_bits().to_le_bytes());
    expected.extend_from_slice(&0.0f32.to_bits().to_le_bytes());
    expected.extend_from_slice(&[0u8; 12]);
    assert_eq!(bytes, expected);
}

#[test]
fn shader_program_places_noise_before_the_entry_point() {
    let noise = noise_source();
    let grain = grain_source();
    let combined = combined_source(noise, grain);
    assert_eq!(combined, format!("{}\n{}", noise, grain));
    let noise_at = combined.find("fn value_noise").expect("noise function present");
    let main_at = combined.find("fn main").expect("entry point present");
    assert!(noise_at < main_at);
}

#[test]
fn entry_point_uses_an_8_by_8_workgroup_and_bounds_checks() {
    let grain = grain_source();
    assert!(grain.contains("@workgroup_size(8, 8, 1)"));
    assert!(grain.contains("gid.x >= dims.x || gid.y >= dims.y"));
}
