//! The writer options builder: turns a validated compression configuration
//! into the properties the Parquet writer consumes. Total over all valid
//! configurations: the underlying level encodings accept every level the
//! resolver admits, so construction is proved to succeed, and the three
//! uninterpreted names below pin each result to the configuration it was
//! built from.

use vstd::prelude::*;
use crate::compression::gzip::GzipLevel;
use crate::compression::parse::CompressionConfig as CodecConfig;
use crate::compression::zstd::ZstdLevel;
use crate::errors::PipelineError;

verus! {

#[verifier::external_type_specification]
#[verifier::external_body]
pub struct ExParquetCompression(parquet::basic::Compression);

#[verifier::external_type_specification]
#[verifier::external_body]
pub struct ExParquetError(parquet::errors::ParquetError);

#[verifier::external_type_specification]
#[verifier::external_body]
pub struct ExWriterProperties(parquet::file::properties::WriterProperties);

#[verifier::external_type_specification]
#[verifier::external_body]
pub struct ExArrowWriterOptions(parquet::arrow::arrow_writer::ArrowWriterOptions);

/// The Parquet codec value that stands for a compression configuration.
/// The value is opaque; the trusted constructors below pin this name at
/// each configuration, one variant of the outside enum per constructor.
pub uninterp spec fn basic_compression_of(c: CodecConfig) -> parquet::basic::Compression;

/// The writer properties whose default column compression is the given
/// codec value, as the properties builder constructs them.
pub uninterp spec fn properties_of(
    c: parquet::basic::Compression,
) -> parquet::file::properties::WriterProperties;

/// The writer options that carry the given properties.
pub uninterp spec fn options_of(
    p: parquet::file::properties::WriterProperties,
) -> parquet::arrow::arrow_writer::ArrowWriterOptions;

/// Relies on parquet's `Compression::UNCOMPRESSED` variant; its value is
/// the codec value of the uncompressed configuration.
#[verifier::external_body]
fn uncompressed_compression() -> (r: parquet::basic::Compression)
    ensures
        r == basic_compression_of(CodecConfig::Uncompressed),
{
    parquet::basic::Compression::UNCOMPRESSED
}

/// Relies on parquet's `Compression::SNAPPY` variant; its value is the
/// codec value of the snappy configuration.
#[verifier::external_body]
fn snappy_compression() -> (r: parquet::basic::Compression)
    ensures
        r == basic_compression_of(CodecConfig::Snappy),
{
    parquet::basic::Compression::SNAPPY
}

/// Relies on parquet's `Compression::LZO` variant; its value is the codec
/// value of the lzo configuration.
#[verifier::external_body]
fn lzo_compression() -> (r: parquet::basic::Compression)
    ensures
        r == basic_compression_of(CodecConfig::Lzo),
{
    parquet::basic::Compression::LZO
}

/// Relies on parquet's `Compression::LZ4` variant; its value is the codec
/// value of the lz4 configuration.
#[verifier::external_body]
fn lz4_compression() -> (r: parquet::basic::Compression)
    ensures
        r == basic_compression_of(CodecConfig::Lz4),
{
    parquet::basic::Compression::LZ4
}

/// Relies on parquet's `Compression::LZ4_RAW` variant; its value is the
/// codec value of the lz4raw configuration.
#[verifier::external_body]
fn lz4_raw_compression() -> (r: parquet::basic::Compression)
    ensures
        r == basic_compression_of(CodecConfig::Lz4Raw),
{
    parquet::basic::Compression::LZ4_RAW
}

/// Relies on parquet's `GzipLevel::try_new`, which accepts exactly the
/// levels 0 through 9, and wraps the accepted level in
/// `Compression::GZIP`: the result is the codec value of the gzip
/// configuration at that level.
#[verifier::external_body]
fn gzip_compression(level: u32) -> (r: Result<
    parquet::basic::Compression,
    parquet::errors::ParquetError,
>)
    ensures
        r is Ok <==> level <= 9,
        r matches Ok(v) ==> v == basic_compression_of(
            CodecConfig::Gzip(GzipLevel::spec_from(level as u8)->Some_0),
        ),
{
    parquet::basic::GzipLevel::try_new(level).map(parquet::basic::Compression::GZIP)
}

/// Relies on parquet's `ZstdLevel::try_new`, which accepts exactly the
/// levels 1 through 22, and wraps the accepted level in
/// `Compression::ZSTD`: the result is the codec value of the zstd
/// configuration at that level.
#[verifier::external_body]
fn zstd_compression(level: i32) -> (r: Result<
    parquet::basic::Compression,
    parquet::errors::ParquetError,
>)
    ensures
        r is Ok <==> 1 <= level <= 22,
        r matches Ok(v) ==> v == basic_compression_of(
            CodecConfig::Zstd(ZstdLevel { level: level as u8 }),
        ),
{
    parquet::basic::ZstdLevel::try_new(level).map(parquet::basic::Compression::ZSTD)
}

/// Relies on parquet's `WriterProperties` builder: `builder()`,
/// `set_compression` and `build` construct properties whose default column
/// compression is the given codec; none of the three fails.
#[verifier::external_body]
fn properties_with_compression(c: parquet::basic::Compression) -> (r:
    parquet::file::properties::WriterProperties)
    ensures
        r == properties_of(c),
{
    parquet::file::properties::WriterProperties::builder().set_compression(c).build()
}

/// Relies on parquet's `ArrowWriterOptions::new` and `with_properties`,
/// which carry the given properties into the writer options; neither
/// fails.
#[verifier::external_body]
fn options_with_properties(p: parquet::file::properties::WriterProperties) -> (r:
    parquet::arrow::arrow_writer::ArrowWriterOptions)
    ensures
        r == options_of(p),
{
    parquet::arrow::arrow_writer::ArrowWriterOptions::new().with_properties(p)
}

/// Converts a validated configuration into the Parquet codec value that
/// stands for it. Conversion is total: every well-formed configuration is
/// accepted by the format library's level encodings.
pub fn compression_to_basic(c: CodecConfig) -> (r: Result<
    parquet::basic::Compression,
    PipelineError,
>)
    requires
        c.wf(),
    ensures
        r == Ok::<parquet::basic::Compression, PipelineError>(basic_compression_of(c)),
{
    match c {
        CodecConfig::Uncompressed => Ok(uncompressed_compression()),
        CodecConfig::Snappy => Ok(snappy_compression()),
        CodecConfig::Lzo => Ok(lzo_compression()),
        CodecConfig::Lz4 => Ok(lz4_compression()),
        CodecConfig::Lz4Raw => Ok(lz4_raw_compression()),
        CodecConfig::Gzip(g) => {
            proof {
                assert(GzipLevel::spec_from(g.spec_level()) == Some(g));
            }
            match gzip_compression(g.level() as u32) {
                Ok(pc) => Ok(pc),
                Err(_) => Err(PipelineError::EncodingError),
            }
        },
        CodecConfig::Zstd(z) => match zstd_compression(z.level() as i32) {
            Ok(pc) => Ok(pc),
            Err(_) => Err(PipelineError::EncodingError),
        },
    }
}

/// Builds the writer properties for a validated configuration: exactly
/// the properties constructed from its codec value, and success on every
/// well-formed configuration.
pub fn writer_properties(c: CodecConfig) -> (r: Result<
    parquet::file::properties::WriterProperties,
    PipelineError,
>)
    requires
        c.wf(),
    ensures
        r == Ok::<parquet::file::properties::WriterProperties, PipelineError>(
            properties_of(basic_compression_of(c)),
        ),
{
    match compression_to_basic(c) {
        Ok(pc) => Ok(properties_with_compression(pc)),
        Err(e) => Err(e),
    }
}

/// Builds the writer options consumed by the streaming encoder: exactly
/// the options carrying the properties of the configuration's codec
/// value, and success on every well-formed configuration.
pub fn writer_options(c: CodecConfig) -> (r: Result<
    parquet::arrow::arrow_writer::ArrowWriterOptions,
    PipelineError,
>)
    requires
        c.wf(),
    ensures
        r == Ok::<parquet::arrow::arrow_writer::ArrowWriterOptions, PipelineError>(
            options_of(properties_of(basic_compression_of(c))),
        ),
{
    match writer_properties(c) {
        Ok(p) => Ok(options_with_properties(p)),
        Err(e) => Err(e),
    }
}

} // verus!
