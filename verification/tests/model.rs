use whisper_rust::model::{DOWNGRADE_THRESHOLD, MIB};
use whisper_rust::{ModelInfo, ModelSize};

#[test]
fn test_model_info_creation() {
    let tiny_info = ModelInfo {
        name: "tiny.en".to_string(),
        size: ModelSize::Tiny,
        memory_usage: 39 * 1024 * 1024,
        cpu_factor: 10,
    };

    assert_eq!(tiny_info.size, ModelSize::Tiny);
    assert_eq!(tiny_info.size.memory_limit(), 100 * 1024 * 1024);
    assert_eq!(tiny_info.size.cpu_threshold(), 80);
}

#[test]
fn test_model_size_from_name() {
    assert_eq!(ModelSize::from_name("tiny.en"), ModelSize::Tiny);
    assert_eq!(ModelSize::from_name("small.en"), ModelSize::Small);
    assert_eq!(ModelSize::from_name("medium.en"), ModelSize::Medium);
    assert_eq!(ModelSize::from_name("unknown"), ModelSize::Medium); // Default
}

#[test]
fn test_memory_limits() {
    assert_eq!(ModelSize::Tiny.memory_limit(), 100 * 1024 * 1024);
    assert_eq!(ModelSize::Small.memory_limit(), 400 * 1024 * 1024);
    assert_eq!(ModelSize::Medium.memory_limit(), 700 * 1024 * 1024);
}

#[test]
fn from_name_takes_the_first_match() {
    // "tiny" is looked for first, wherever it stands.
    assert_eq!(ModelSize::from_name("small-tiny"), ModelSize::Tiny);
    assert_eq!(ModelSize::from_name("/models/ggml-small.bin"), ModelSize::Small);
    assert_eq!(ModelSize::from_name(""), ModelSize::Medium);
    assert_eq!(ModelSize::from_name("tin"), ModelSize::Medium);
    assert_eq!(ModelSize::from_name("TINY"), ModelSize::Medium);
}

#[test]
fn footprints_and_cost_factors() {
    assert_eq!(MIB, 1024 * 1024);
    assert_eq!(ModelSize::Tiny.footprint(), 39 * 1024 * 1024);
    assert_eq!(ModelSize::Small.footprint(), 244 * 1024 * 1024);
    assert_eq!(ModelSize::Medium.footprint(), 769 * 1024 * 1024);
    assert_eq!(ModelSize::Tiny.cpu_factor(), 10);
    assert_eq!(ModelSize::Small.cpu_factor(), 25);
    assert_eq!(ModelSize::Medium.cpu_factor(), 40);
}

#[test]
fn threshold_is_the_same_for_every_variant() {
    assert_eq!(DOWNGRADE_THRESHOLD, 80);
    assert_eq!(ModelSize::Tiny.cpu_threshold(), 80);
    assert_eq!(ModelSize::Small.cpu_threshold(), 80);
    assert_eq!(ModelSize::Medium.cpu_threshold(), 80);
}

#[test]
fn info_for_path() {
    let info = ModelInfo::for_path("/models/ggml-small.en.bin");
    assert_eq!(info.name, "/models/ggml-small.en.bin");
    assert_eq!(info.size, ModelSize::Small);
    assert_eq!(info.memory_usage, 244 * 1024 * 1024);
    assert_eq!(info.cpu_factor, 25);

    let info = ModelInfo::for_path("large-v3");
    assert_eq!(info.size, ModelSize::Medium);
    assert_eq!(info.memory_usage, 769 * 1024 * 1024);
    assert_eq!(info.cpu_factor, 40);
}
