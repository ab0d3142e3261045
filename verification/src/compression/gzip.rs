//! Gzip compression levels: the ten valid levels 0 through 9, with 6 as the
//! documented default. Level 0 is a distinct valid level, not an alias for
//! the default.

use vstd::prelude::*;
use crate::errors::PipelineError;

verus! {

/// A valid gzip compression level. The numeric range is 0 through 9;
/// `Fast` is level 1 and `Best` is level 9.
#[derive(Debug, Clone, Copy, PartialEq, Eq, Structural)]
pub enum GzipLevel {
    Fast,
    Best,
    Level0,
    Level2,
    Level3,
    Level4,
    Level5,
    Level6,
    Level7,
    Level8,
}

pub const GZIP_LEVEL_DEFAULT: GzipLevel = GzipLevel::Level6;

impl GzipLevel {
    /// The numeric level this variant stands for.
    pub open spec fn spec_level(self) -> u8 {
        match self {
            GzipLevel::Level0 => 0,
            GzipLevel::Fast => 1,
            GzipLevel::Level2 => 2,
            GzipLevel::Level3 => 3,
            GzipLevel::Level4 => 4,
            GzipLevel::Level5 => 5,
            GzipLevel::Level6 => 6,
            GzipLevel::Level7 => 7,
            GzipLevel::Level8 => 8,
            GzipLevel::Best => 9,
        }
    }

    /// The variant that stands for a numeric level, if the level is valid.
    pub open spec fn spec_from(u: u8) -> Option<GzipLevel> {
        match u {
            0u8 => Some(GzipLevel::Level0),
            1u8 => Some(GzipLevel::Fast),
            2u8 => Some(GzipLevel::Level2),
            3u8 => Some(GzipLevel::Level3),
            4u8 => Some(GzipLevel::Level4),
            5u8 => Some(GzipLevel::Level5),
            6u8 => Some(GzipLevel::Level6),
            7u8 => Some(GzipLevel::Level7),
            8u8 => Some(GzipLevel::Level8),
            9u8 => Some(GzipLevel::Best),
            _ => None,
        }
    }

    /// Returns the numeric level of this variant.
    pub fn level(self) -> (u: u8)
        ensures
            u == self.spec_level(),
    {
        match self {
            GzipLevel::Level0 => 0,
            GzipLevel::Fast => 1,
            GzipLevel::Level2 => 2,
            GzipLevel::Level3 => 3,
            GzipLevel::Level4 => 4,
            GzipLevel::Level5 => 5,
            GzipLevel::Level6 => 6,
            GzipLevel::Level7 => 7,
            GzipLevel::Level8 => 8,
            GzipLevel::Best => 9,
        }
    }

    /// Validates a numeric gzip level: levels 0 through 9 map to their
    /// variant, every other level is rejected.
    pub fn try_from(u: u8) -> (r: Result<GzipLevel, PipelineError>)
        ensures
            u <= 9 ==> r == Ok::<GzipLevel, PipelineError>(GzipLevel::spec_from(u)->Some_0),
            u > 9 ==> r == Err::<GzipLevel, PipelineError>(PipelineError::InvalidCompressionLevel(u)),
            r matches Ok(g) ==> g.spec_level() == u,
    {
        match u {
            0u8 => Ok(GzipLevel::Level0),
            1u8 => Ok(GzipLevel::Fast),
            2u8 => Ok(GzipLevel::Level2),
            3u8 => Ok(GzipLevel::Level3),
            4u8 => Ok(GzipLevel::Level4),
            5u8 => Ok(GzipLevel::Level5),
            6u8 => Ok(GzipLevel::Level6),
            7u8 => Ok(GzipLevel::Level7),
            8u8 => Ok(GzipLevel::Level8),
            9u8 => Ok(GzipLevel::Best),
            _ => Err(PipelineError::InvalidCompressionLevel(u)),
        }
    }
}

impl Default for GzipLevel {
    /// The default gzip level is 6.
    fn default() -> (r: Self)
        ensures
            r == GzipLevel::Level6,
    {
        GZIP_LEVEL_DEFAULT
    }
}

/// Gzip level 0 is a distinct, valid zero-level configuration, not an alias
/// for the default level 6.
pub proof fn lemma_gzip_zero_distinct()
    ensures
        GzipLevel::spec_from(0) == Some(GzipLevel::Level0),
        GzipLevel::Level0.spec_level() == 0,
        GzipLevel::Level0 != GZIP_LEVEL_DEFAULT,
{
}

} // verus!
