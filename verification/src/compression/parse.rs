//! The codec enum and the compression resolver: a case-insensitive codec
//! name and an optional numeric level become a validated configuration, or
//! a descriptive error.

use vstd::prelude::*;
use vstd::string::StringSliceAdditionalSpecFns;
use crate::compression::gzip::{GzipLevel, GZIP_LEVEL_DEFAULT};
use crate::compression::zstd::{zstd_resolved_level, ZstdLevel};
use crate::errors::PipelineError;

verus! {

/// The closed set of supported compression configurations. Values built by
/// [`resolve`] always satisfy [`CompressionConfig::wf`], so no further range
/// checking is needed downstream.
#[derive(Debug, Clone, Copy, PartialEq, Eq, Structural)]
pub enum CompressionConfig {
    Uncompressed,
    Snappy,
    Gzip(GzipLevel),
    Lzo,
    Lz4,
    Zstd(ZstdLevel),
    Lz4Raw,
}

/// The documented default configuration when no codec name is supplied.
pub const DEFAULT_COMPRESSION: CompressionConfig = CompressionConfig::Uncompressed;

impl CompressionConfig {
    /// Every carried level is valid for its codec. Gzip levels are valid by
    /// construction of the [`GzipLevel`] enum.
    pub open spec fn wf(self) -> bool {
        match self {
            CompressionConfig::Zstd(z) => z.wf(),
            _ => true,
        }
    }
}

impl Default for CompressionConfig {
    /// The default configuration is no compression.
    fn default() -> (r: Self)
        ensures
            r == CompressionConfig::Uncompressed,
    {
        DEFAULT_COMPRESSION
    }
}

/// An ASCII upper-case byte folded to lower case; every other byte is left
/// as it is.
pub open spec fn lower_byte(b: u8) -> u8 {
    if 65 <= b && b <= 90 {
        (b + 32) as u8
    } else {
        b
    }
}

/// A byte sequence with every ASCII upper-case byte folded to lower case.
pub open spec fn lower_bytes(s: Seq<u8>) -> Seq<u8> {
    s.map_values(|b: u8| lower_byte(b))
}

/// Two strings hold the same codec name when their UTF-8 bytes agree after
/// ASCII case folding.
pub open spec fn name_matches(s: &str, t: &str) -> bool {
    lower_bytes(s.spec_bytes()) == lower_bytes(t.spec_bytes())
}

/// Compares two byte strings for equality, ignoring ASCII case.
fn ascii_eq_ignore_case(a: &[u8], b: &[u8]) -> (r: bool)
    ensures
        r == (lower_bytes(a@) == lower_bytes(b@)),
{
    if a.len() != b.len() {
        assert(lower_bytes(a@).len() != lower_bytes(b@).len());
        return false;
    }
    let n: usize = a.len();
    let mut i: usize = 0;
    while i < n
        invariant
            n == a@.len() == b@.len(),
            i <= n,
            forall|j: int| 0 <= j < i ==> lower_byte(a@[j]) == lower_byte(b@[j]),
        decreases n - i,
    {
        let x: u8 = a[i];
        let y: u8 = b[i];
        let lx: u8 = if 65 <= x && x <= 90 { x + 32 } else { x };
        let ly: u8 = if 65 <= y && y <= 90 { y + 32 } else { y };
        if lx != ly {
            assert(lower_bytes(a@)[i as int] != lower_bytes(b@)[i as int]);
            return false;
        }
        i = i + 1;
    }
    assert(lower_bytes(a@) =~= lower_bytes(b@));
    true
}

/// The configuration a codec name and an optional level resolve to, when
/// they resolve at all. No name means the documented default, no
/// compression. The names `none`, `snappy`, `lzo`, `lz4` and `lz4raw`
/// ignore any supplied level; `gzip` and `zstd` validate it against their
/// range and fall back to their codec default when it is absent.
pub open spec fn spec_resolve(name: Option<&str>, level: Option<u8>) -> Option<CompressionConfig> {
    match name {
        None => Some(CompressionConfig::Uncompressed),
        Some(s) => {
            if name_matches(s, "none") {
                Some(CompressionConfig::Uncompressed)
            } else if name_matches(s, "snappy") {
                Some(CompressionConfig::Snappy)
            } else if name_matches(s, "lzo") {
                Some(CompressionConfig::Lzo)
            } else if name_matches(s, "lz4") {
                Some(CompressionConfig::Lz4)
            } else if name_matches(s, "lz4raw") {
                Some(CompressionConfig::Lz4Raw)
            } else if name_matches(s, "gzip") {
                match level {
                    None => Some(CompressionConfig::Gzip(GZIP_LEVEL_DEFAULT)),
                    Some(l) => match GzipLevel::spec_from(l) {
                        Some(g) => Some(CompressionConfig::Gzip(g)),
                        None => None,
                    },
                }
            } else if name_matches(s, "zstd") {
                match level {
                    None => Some(CompressionConfig::Zstd(ZstdLevel { level: 3 })),
                    Some(l) => match zstd_resolved_level(l) {
                        Some(z) => Some(CompressionConfig::Zstd(ZstdLevel { level: z })),
                        None => None,
                    },
                }
            } else {
                None
            }
        },
    }
}

/// Whether a string names one of the seven supported codecs, ignoring
/// ASCII case.
pub open spec fn is_supported_name(s: &str) -> bool {
    ||| name_matches(s, "none")
    ||| name_matches(s, "snappy")
    ||| name_matches(s, "lzo")
    ||| name_matches(s, "lz4")
    ||| name_matches(s, "lz4raw")
    ||| name_matches(s, "gzip")
    ||| name_matches(s, "zstd")
}

/// The error owed when a name and a level do not resolve: a supported name
/// fails only on an out-of-range supplied level, and an unsupported name
/// fails carrying the offending string.
pub open spec fn resolve_err(name: Option<&str>, level: Option<u8>, e: PipelineError) -> bool {
    match name {
        None => false,
        Some(s) => {
            if is_supported_name(s) {
                level matches Some(l) && e == PipelineError::InvalidCompressionLevel(l)
            } else {
                e matches PipelineError::UnsupportedCompression(t) && t@ == s@
            }
        },
    }
}

/// For any name that resolves to a zstd configuration, a requested level
/// of 0 resolves to exactly the same configuration as the explicit
/// default level 3.
pub proof fn lemma_resolve_zstd_zero_is_default(s: &str)
    requires
        spec_resolve(Some(s), Some(0)) matches Some(CompressionConfig::Zstd(_)),
    ensures
        spec_resolve(Some(s), Some(0)) == spec_resolve(Some(s), Some(3)),
        spec_resolve(Some(s), Some(0)) == Some(CompressionConfig::Zstd(ZstdLevel { level: 3 })),
{
}

/// For any name that resolves to a gzip configuration, a requested level
/// of 0 resolves to a distinct, valid zero-level configuration, not an
/// alias for the default level 6 that an absent level resolves to.
pub proof fn lemma_resolve_gzip_zero_is_distinct(s: &str)
    requires
        spec_resolve(Some(s), Some(0)) matches Some(CompressionConfig::Gzip(_)),
    ensures
        spec_resolve(Some(s), Some(0)) == Some(CompressionConfig::Gzip(GzipLevel::Level0)),
        spec_resolve(Some(s), None) == Some(CompressionConfig::Gzip(GzipLevel::Level6)),
        spec_resolve(Some(s), Some(0)) != spec_resolve(Some(s), None),
{
}

/// Resolves an optional codec name (compared ignoring ASCII case) and an
/// optional numeric level into a validated compression configuration, or
/// the error [`spec_resolve`] and [`resolve_err`] describe.
pub fn resolve(name: Option<&str>, level: Option<u8>) -> (r: Result<CompressionConfig, PipelineError>)
    ensures
        spec_resolve(name, level) matches Some(c) ==>
            r == Ok::<CompressionConfig, PipelineError>(c) && c.wf(),
        spec_resolve(name, level) is None ==>
            (r matches Err(e) && resolve_err(name, level, e)),
{
    let s: &str = match name {
        None => {
            return Ok(CompressionConfig::Uncompressed);
        },
        Some(s) => s,
    };
    let sb: &[u8] = s.as_bytes();
    if ascii_eq_ignore_case(sb, "none".as_bytes()) {
        Ok(CompressionConfig::Uncompressed)
    } else if ascii_eq_ignore_case(sb, "snappy".as_bytes()) {
        Ok(CompressionConfig::Snappy)
    } else if ascii_eq_ignore_case(sb, "lzo".as_bytes()) {
        Ok(CompressionConfig::Lzo)
    } else if ascii_eq_ignore_case(sb, "lz4".as_bytes()) {
        Ok(CompressionConfig::Lz4)
    } else if ascii_eq_ignore_case(sb, "lz4raw".as_bytes()) {
        Ok(CompressionConfig::Lz4Raw)
    } else if ascii_eq_ignore_case(sb, "gzip".as_bytes()) {
        match level {
            None => Ok(CompressionConfig::Gzip(GzipLevel::default())),
            Some(l) => match GzipLevel::try_from(l) {
                Ok(g) => Ok(CompressionConfig::Gzip(g)),
                Err(e) => Err(e),
            },
        }
    } else if ascii_eq_ignore_case(sb, "zstd".as_bytes()) {
        match level {
            None => Ok(CompressionConfig::Zstd(ZstdLevel::default())),
            Some(l) => match ZstdLevel::try_from(l) {
                Ok(z) => Ok(CompressionConfig::Zstd(z)),
                Err(e) => Err(e),
            },
        }
    } else {
        Err(PipelineError::UnsupportedCompression(s.to_owned()))
    }
}

} // verus!
