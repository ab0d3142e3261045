//! Zstd compression levels: an integer in 1 through 22, with 3 as the
//! codec's recommended default. A requested level of 0 is remapped to the
//! default level 3 (it does not mean "no compression").

use vstd::prelude::*;
use crate::errors::PipelineError;

verus! {

/// A zstd compression level. Values constructed through [`ZstdLevel::try_from`]
/// or [`Default::default`] always satisfy [`ZstdLevel::wf`]: the level lies
/// in 1 through 22.
#[derive(Debug, Clone, Copy, PartialEq, Eq, Structural)]
pub struct ZstdLevel {
    pub level: u8,
}

/// The level a requested numeric zstd level resolves to: 0 is remapped to
/// the default 3, levels 1 through 22 stand for themselves, and every other
/// level is invalid.
pub open spec fn zstd_resolved_level(u: u8) -> Option<u8> {
    if u == 0 {
        Some(3u8)
    } else if u <= 22 {
        Some(u)
    } else {
        None
    }
}

impl ZstdLevel {
    /// The numeric level this value holds.
    pub open spec fn spec_level(self) -> u8 {
        self.level
    }

    /// A valid zstd level lies in 1 through 22.
    pub open spec fn wf(self) -> bool {
        1 <= self.level <= 22
    }

    /// Returns the numeric level.
    pub fn level(self) -> (u: u8)
        ensures
            u == self.spec_level(),
    {
        self.level
    }

    /// Validates a requested numeric zstd level: 0 resolves to the default
    /// level 3, levels 1 through 22 resolve to themselves, and every other
    /// level is rejected.
    pub fn try_from(u: u8) -> (r: Result<ZstdLevel, PipelineError>)
        ensures
            zstd_resolved_level(u) matches Some(l) ==>
                r == Ok::<ZstdLevel, PipelineError>(ZstdLevel { level: l }),
            zstd_resolved_level(u) is None ==>
                r == Err::<ZstdLevel, PipelineError>(PipelineError::InvalidCompressionLevel(u)),
            r matches Ok(z) ==> z.wf(),
    {
        if u == 0 {
            Ok(ZstdLevel { level: 3 })
        } else if u <= 22 {
            Ok(ZstdLevel { level: u })
        } else {
            Err(PipelineError::InvalidCompressionLevel(u))
        }
    }
}

impl Default for ZstdLevel {
    /// The default zstd level is 3.
    fn default() -> (r: Self)
        ensures
            r == (ZstdLevel { level: 3 }),
            r.wf(),
    {
        ZstdLevel { level: 3 }
    }
}

/// A requested zstd level of 0 resolves to the same configuration as the
/// explicit default level 3.
pub proof fn lemma_zstd_zero_is_default()
    ensures
        zstd_resolved_level(0) == zstd_resolved_level(3),
        zstd_resolved_level(0) == Some(3u8),
{
}

} // verus!
