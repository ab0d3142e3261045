use batch2parquet::compression::gzip::{GzipLevel, GZIP_LEVEL_DEFAULT};
use batch2parquet::compression::parse::{resolve, CompressionConfig, DEFAULT_COMPRESSION};
use batch2parquet::compression::zstd::ZstdLevel;
use batch2parquet::errors::PipelineError;

#[test]
fn no_name_resolves_to_uncompressed() {
    assert_eq!(resolve(None, None), Ok(CompressionConfig::Uncompressed));
    assert_eq!(resolve(None, Some(5)), Ok(CompressionConfig::Uncompressed));
}

#[test]
fn plain_codecs_resolve_by_name() {
    assert_eq!(resolve(Some("none"), None), Ok(CompressionConfig::Uncompressed));
    assert_eq!(resolve(Some("snappy"), None), Ok(CompressionConfig::Snappy));
    assert_eq!(resolve(Some("lzo"), None), Ok(CompressionConfig::Lzo));
    assert_eq!(resolve(Some("lz4"), None), Ok(CompressionConfig::Lz4));
    assert_eq!(resolve(Some("lz4raw"), None), Ok(CompressionConfig::Lz4Raw));
}

#[test]
fn names_are_case_insensitive() {
    assert_eq!(resolve(Some("NONE"), None), Ok(CompressionConfig::Uncompressed));
    assert_eq!(resolve(Some("Snappy"), None), Ok(CompressionConfig::Snappy));
    assert_eq!(resolve(Some("LZ4Raw"), None), Ok(CompressionConfig::Lz4Raw));
    assert_eq!(
        resolve(Some("GZIP"), Some(4)),
        Ok(CompressionConfig::Gzip(GzipLevel::Level4))
    );
    assert_eq!(
        resolve(Some("ZsTd"), Some(7)),
        Ok(CompressionConfig::Zstd(ZstdLevel { level: 7 }))
    );
}

#[test]
fn plain_codecs_ignore_any_level() {
    assert_eq!(resolve(Some("snappy"), Some(200)), Ok(CompressionConfig::Snappy));
    assert_eq!(resolve(Some("none"), Some(9)), Ok(CompressionConfig::Uncompressed));
    assert_eq!(resolve(Some("lzo"), Some(42)), Ok(CompressionConfig::Lzo));
}

#[test]
fn gzip_levels_resolve_exactly() {
    for level in 0u8..=9 {
        let got = resolve(Some("gzip"), Some(level)).unwrap();
        match got {
            CompressionConfig::Gzip(g) => assert_eq!(g.level(), level),
            other => panic!("expected gzip config, got {other:?}"),
        }
    }
    assert_eq!(
        resolve(Some("gzip"), None),
        Ok(CompressionConfig::Gzip(GzipLevel::Level6))
    );
}

#[test]
fn gzip_rejects_levels_above_nine() {
    for level in [10u8, 11, 100, 255] {
        assert_eq!(
            resolve(Some("gzip"), Some(level)),
            Err(PipelineError::InvalidCompressionLevel(level))
        );
    }
}

#[test]
fn zstd_levels_resolve_exactly() {
    for level in 1u8..=22 {
        assert_eq!(
            resolve(Some("zstd"), Some(level)),
            Ok(CompressionConfig::Zstd(ZstdLevel { level }))
        );
    }
    assert_eq!(
        resolve(Some("zstd"), None),
        Ok(CompressionConfig::Zstd(ZstdLevel { level: 3 }))
    );
}

#[test]
fn zstd_rejects_levels_above_twenty_two() {
    for level in [23u8, 24, 100, 255] {
        assert_eq!(
            resolve(Some("zstd"), Some(level)),
            Err(PipelineError::InvalidCompressionLevel(level))
        );
    }
}

#[test]
fn unknown_names_fail_with_the_offending_string() {
    assert_eq!(
        resolve(Some("brotli"), None),
        Err(PipelineError::UnsupportedCompression("brotli".to_string()))
    );
    assert_eq!(
        resolve(Some("Deflate"), Some(3)),
        Err(PipelineError::UnsupportedCompression("Deflate".to_string()))
    );
    assert_eq!(
        resolve(Some(""), None),
        Err(PipelineError::UnsupportedCompression(String::new()))
    );
}

#[test]
fn zstd_zero_is_the_default_three() {
    assert_eq!(
        resolve(Some("zstd"), Some(0)),
        resolve(Some("zstd"), Some(3))
    );
    assert_eq!(
        resolve(Some("zstd"), Some(0)),
        Ok(CompressionConfig::Zstd(ZstdLevel { level: 3 }))
    );
    assert_eq!(ZstdLevel::try_from(0), Ok(ZstdLevel { level: 3 }));
    assert_eq!(ZstdLevel::default(), ZstdLevel { level: 3 });
}

#[test]
fn gzip_zero_is_distinct_from_the_default() {
    let zero = resolve(Some("gzip"), Some(0)).unwrap();
    let dflt = resolve(Some("gzip"), None).unwrap();
    assert_eq!(zero, CompressionConfig::Gzip(GzipLevel::Level0));
    assert_eq!(dflt, CompressionConfig::Gzip(GzipLevel::Level6));
    assert_ne!(zero, dflt);
    assert_eq!(GzipLevel::Level0.level(), 0);
    assert_eq!(GzipLevel::default(), GZIP_LEVEL_DEFAULT);
    assert_eq!(GzipLevel::default().level(), 6);
}

#[test]
fn gzip_level_try_from_matches_the_numeric_value() {
    for level in 0u8..=9 {
        assert_eq!(GzipLevel::try_from(level).unwrap().level(), level);
    }
    assert_eq!(
        GzipLevel::try_from(10),
        Err(PipelineError::InvalidCompressionLevel(10))
    );
}

#[test]
fn default_configuration_is_uncompressed() {
    assert_eq!(CompressionConfig::default(), CompressionConfig::Uncompressed);
    assert_eq!(DEFAULT_COMPRESSION, CompressionConfig::Uncompressed);
}
