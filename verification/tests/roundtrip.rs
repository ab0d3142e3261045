use std::sync::Arc;

use arrow::array::{Array, Int64Array};
use arrow::datatypes::{DataType, Field, Schema};
use arrow::record_batch::RecordBatch;
use bytes::Bytes;
use parquet::arrow::arrow_reader::ParquetRecordBatchReaderBuilder;
use parquet::arrow::ArrowWriter;

use batch2parquet::compression::parse::{resolve, CompressionConfig};
use batch2parquet::compression::zstd::ZstdLevel;
use batch2parquet::encoder::{EncodeAction, Encoder, PullEvent};
use batch2parquet::properties::writer_options;

fn int_batch(schema: &Arc<Schema>, values: Vec<i64>) -> RecordBatch {
    RecordBatch::try_new(schema.clone(), vec![Arc::new(Int64Array::from(values))]).unwrap()
}

fn int_schema() -> Arc<Schema> {
    Arc::new(Schema::new(vec![Field::new("v", DataType::Int64, false)]))
}

/// Drives the writer over an in-memory sequence the way the pipeline's
/// driver does: one encoder step per observation, lazy initialization from
/// the first batch's schema, in-order writes, finalize on exhaustion, and
/// an immediate abort on a source failure or a failed write.
fn drive_to_buffer(
    items: Vec<Result<RecordBatch, String>>,
    config: CompressionConfig,
) -> (Result<u64, String>, Vec<u8>) {
    let mut enc = Encoder::new();
    let mut writer: Option<ArrowWriter<Vec<u8>>> = None;
    let mut it = items.into_iter();
    loop {
        match it.next() {
            None => match enc.step(PullEvent::Exhausted) {
                EncodeAction::LeaveEmpty => return (Ok(enc.written), Vec::new()),
                EncodeAction::FinishWriter => {
                    // Finalizes the trailer and hands the sink back.
                    let buf = match writer.take().unwrap().into_inner() {
                        Ok(b) => b,
                        Err(e) => {
                            enc.step(PullEvent::WriteFailure);
                            return (Err(e.to_string()), Vec::new());
                        }
                    };
                    return (Ok(enc.written), buf);
                }
                other => panic!("unexpected action on exhaustion: {other:?}"),
            },
            Some(Err(e)) => {
                assert_eq!(enc.step(PullEvent::SourceFailure), EncodeAction::AbortSource);
                // Recover whatever partial bytes the sink buffered, without
                // finalizing anything.
                let partial = match writer.take() {
                    None => Vec::new(),
                    Some(mut w) => w.inner_mut().clone(),
                };
                return (Err(e), partial);
            }
            Some(Ok(rb)) => match enc.step(PullEvent::Batch) {
                EncodeAction::InitAndWriteFirst => {
                    let opts = match writer_options(config) {
                        Ok(o) => o,
                        Err(e) => return (Err(format!("{e:?}")), Vec::new()),
                    };
                    let mut w =
                        match ArrowWriter::try_new_with_options(Vec::new(), rb.schema(), opts) {
                            Ok(w) => w,
                            Err(e) => {
                                enc.step(PullEvent::WriteFailure);
                                return (Err(e.to_string()), Vec::new());
                            }
                        };
                    if let Err(e) = w.write(&rb) {
                        enc.step(PullEvent::WriteFailure);
                        return (Err(e.to_string()), Vec::new());
                    }
                    writer = Some(w);
                }
                EncodeAction::WriteNext => {
                    if let Err(e) = writer.as_mut().unwrap().write(&rb) {
                        enc.step(PullEvent::WriteFailure);
                        return (Err(e.to_string()), Vec::new());
                    }
                }
                other => panic!("unexpected action on a batch: {other:?}"),
            },
        }
    }
}

fn read_all_values(buf: &[u8]) -> (Arc<Schema>, Vec<i64>) {
    let reader = ParquetRecordBatchReaderBuilder::try_new(Bytes::from(buf.to_vec()))
        .unwrap()
        .build()
        .unwrap();
    let mut schema: Option<Arc<Schema>> = None;
    let mut values: Vec<i64> = Vec::new();
    for rb in reader {
        let rb = rb.unwrap();
        schema = Some(rb.schema());
        let col = rb.column(0).as_any().downcast_ref::<Int64Array>().unwrap();
        for i in 0..col.len() {
            values.push(col.value(i));
        }
    }
    (schema.unwrap(), values)
}

/// The codec kind every column chunk of the file reports. The numeric
/// level is a write-time setting the format does not store.
fn file_codec_kinds(buf: &[u8]) -> Vec<&'static str> {
    let builder = ParquetRecordBatchReaderBuilder::try_new(Bytes::from(buf.to_vec())).unwrap();
    let mut kinds = Vec::new();
    for rg in builder.metadata().row_groups() {
        for col in rg.columns() {
            kinds.push(match col.compression() {
                parquet::basic::Compression::UNCOMPRESSED => "uncompressed",
                parquet::basic::Compression::SNAPPY => "snappy",
                parquet::basic::Compression::GZIP(_) => "gzip",
                parquet::basic::Compression::LZO => "lzo",
                parquet::basic::Compression::BROTLI(_) => "brotli",
                parquet::basic::Compression::LZ4 => "lz4",
                parquet::basic::Compression::ZSTD(_) => "zstd",
                parquet::basic::Compression::LZ4_RAW => "lz4raw",
            });
        }
    }
    kinds
}

fn roundtrip_with(config: CompressionConfig, expected_codec: &str) {
    let schema = int_schema();
    let input: Vec<i64> = (0..100).collect();
    let items = vec![
        Ok(int_batch(&schema, input[..40].to_vec())),
        Ok(int_batch(&schema, input[40..].to_vec())),
    ];
    let (written, buf) = drive_to_buffer(items, config);
    assert_eq!(written.unwrap(), 2);
    let (read_schema, values) = read_all_values(&buf);
    assert_eq!(read_schema.fields(), schema.fields());
    assert_eq!(values, input);
    let kinds = file_codec_kinds(&buf);
    assert!(!kinds.is_empty());
    for kind in kinds {
        assert_eq!(kind, expected_codec);
    }
}

#[test]
fn roundtrip_uncompressed() {
    roundtrip_with(resolve(Some("none"), None).unwrap(), "uncompressed");
}

#[test]
fn roundtrip_snappy() {
    roundtrip_with(resolve(Some("snappy"), None).unwrap(), "snappy");
}

#[test]
fn roundtrip_gzip_default_level() {
    roundtrip_with(resolve(Some("gzip"), None).unwrap(), "gzip");
}

#[test]
fn roundtrip_gzip_level_zero() {
    roundtrip_with(resolve(Some("gzip"), Some(0)).unwrap(), "gzip");
}

#[test]
fn roundtrip_zstd_default_level() {
    roundtrip_with(resolve(Some("zstd"), None).unwrap(), "zstd");
}

#[test]
fn roundtrip_lz4() {
    roundtrip_with(resolve(Some("lz4"), None).unwrap(), "lz4");
}

#[test]
fn roundtrip_lz4raw() {
    roundtrip_with(resolve(Some("lz4raw"), None).unwrap(), "lz4raw");
}

#[test]
fn empty_sequence_produces_a_zero_length_output() {
    let (written, buf) = drive_to_buffer(Vec::new(), resolve(Some("zstd"), None).unwrap());
    assert_eq!(written.unwrap(), 0);
    // The output is a zero-length file, not a minimal valid empty
    // container with a schema and a trailer.
    assert_eq!(buf.len(), 0);
}

#[test]
fn mid_stream_failure_aborts_without_a_trailer() {
    let schema = int_schema();
    let items = vec![
        Ok(int_batch(&schema, vec![1, 2, 3])),
        Err("unreadable input".to_string()),
        Ok(int_batch(&schema, vec![4, 5, 6])),
    ];
    let (got, buf) = drive_to_buffer(items, CompressionConfig::Uncompressed);
    assert_eq!(got, Err("unreadable input".to_string()));
    // The run aborted before finalization: whatever bytes the sink
    // buffered do not form a readable container.
    assert!(ParquetRecordBatchReaderBuilder::try_new(Bytes::from(buf)).is_err());
}

#[test]
fn three_batches_zstd_level_ten_reads_back_thirty_five_rows() {
    let schema = int_schema();
    let first: Vec<i64> = (0..10).collect();
    let second: Vec<i64> = (10..15).collect();
    let third: Vec<i64> = (15..35).collect();
    let items = vec![
        Ok(int_batch(&schema, first)),
        Ok(int_batch(&schema, second)),
        Ok(int_batch(&schema, third)),
    ];
    let config = resolve(Some("zstd"), Some(10)).unwrap();
    // The validated configuration carries the requested level exactly.
    assert_eq!(config, CompressionConfig::Zstd(ZstdLevel { level: 10 }));
    let (written, buf) = drive_to_buffer(items, config);
    assert_eq!(written.unwrap(), 3);

    let (_, values) = read_all_values(&buf);
    let expected: Vec<i64> = (0..35).collect();
    assert_eq!(values, expected);

    // The container's column metadata records the codec; the numeric
    // level is a write-time setting the format does not store, so the
    // reader reports the codec with its default level.
    let builder = ParquetRecordBatchReaderBuilder::try_new(Bytes::from(buf)).unwrap();
    let metadata = builder.metadata();
    for rg in metadata.row_groups() {
        for col in rg.columns() {
            assert!(matches!(
                col.compression(),
                parquet::basic::Compression::ZSTD(_)
            ));
        }
    }
    let total_rows: i64 = metadata.row_groups().iter().map(|rg| rg.num_rows()).sum();
    assert_eq!(total_rows, 35);
}
