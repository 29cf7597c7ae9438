use vod_pipeline::config::{default_rendition_table, Config, RenditionConfig, S3Constants};
use vod_pipeline::errors::ConfigError;

fn base_config() -> Config {
    Config {
        s3: S3Constants {
            bucket_name: "my-bucket".to_string(),
            aws_region: "eu-central-1".to_string(),
        },
        scratch_root: "uploads".to_string(),
        segment_seconds: 10,
        thumbnail_count: 5,
        thumbnail_stride: 50,
        renditions: default_rendition_table(),
    }
}

#[test]
fn standard_table_is_high_mid_low() {
    let table = default_rendition_table();
    assert_eq!(table.len(), 3);
    assert_eq!(table[0].name, "high");
    assert_eq!(table[0].quality, 23);
    assert_eq!(table[1].name, "mid");
    assert_eq!(table[1].quality, 28);
    assert_eq!(table[2].name, "low");
    assert_eq!(table[2].quality, 35);
    assert!(table[0].bandwidth_bits > table[1].bandwidth_bits);
    assert!(table[1].bandwidth_bits > table[2].bandwidth_bits);
}

#[test]
fn valid_configuration_passes() {
    assert_eq!(base_config().validate(), Ok(()));
}

#[test]
fn empty_rendition_table_is_rejected() {
    let mut c = base_config();
    c.renditions = Vec::new();
    assert_eq!(c.validate(), Err(ConfigError::NoRenditions));
}

#[test]
fn duplicate_rendition_names_are_rejected() {
    let mut c = base_config();
    c.renditions = vec![
        RenditionConfig { name: "high".to_string(), quality: 23, bandwidth_bits: 5000000 },
        RenditionConfig { name: "high".to_string(), quality: 28, bandwidth_bits: 3000000 },
    ];
    assert_eq!(c.validate(), Err(ConfigError::BadRenditionName));
}

#[test]
fn unsafe_rendition_name_is_rejected() {
    let mut c = base_config();
    c.renditions[1].name = "mid/../../etc".to_string();
    assert_eq!(c.validate(), Err(ConfigError::BadRenditionName));
}

#[test]
fn quality_must_increase_along_the_table() {
    let mut c = base_config();
    c.renditions[2].quality = 28;
    assert_eq!(c.validate(), Err(ConfigError::QualityNotMonotonic));
}

#[test]
fn bandwidth_must_decrease_along_the_table() {
    let mut c = base_config();
    c.renditions[2].bandwidth_bits = c.renditions[1].bandwidth_bits;
    assert_eq!(c.validate(), Err(ConfigError::BandwidthNotMonotonic));
}

#[test]
fn empty_bucket_or_region_or_root_is_rejected() {
    let mut c = base_config();
    c.s3.bucket_name = String::new();
    assert_eq!(c.validate(), Err(ConfigError::EmptyField));
    let mut c = base_config();
    c.s3.aws_region = String::new();
    assert_eq!(c.validate(), Err(ConfigError::EmptyField));
    let mut c = base_config();
    c.scratch_root = String::new();
    assert_eq!(c.validate(), Err(ConfigError::EmptyField));
}

#[test]
fn zero_duration_or_thumbnail_parameters_are_rejected() {
    let mut c = base_config();
    c.segment_seconds = 0;
    assert_eq!(c.validate(), Err(ConfigError::ZeroParameter));
    let mut c = base_config();
    c.thumbnail_count = 0;
    assert_eq!(c.validate(), Err(ConfigError::ZeroParameter));
    let mut c = base_config();
    c.thumbnail_stride = 0;
    assert_eq!(c.validate(), Err(ConfigError::ZeroParameter));
}
