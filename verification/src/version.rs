use vstd::prelude::*;
use crate::bytes::Endian;

verus! {

/// Destiny releases whose packages can be read, oldest first.
#[derive(Clone, Copy, Debug, PartialEq, Eq, Structural)]
pub enum DestinyVersion {
    DestinyInternalAlpha,
    DestinyFirstLookAlpha,
    DestinyTheTakenKing,
    DestinyRiseOfIron,
    Destiny2Beta,
    Destiny2Forsaken,
    Destiny2Shadowkeep,
    Destiny2BeyondLight,
    Destiny2WitchQueen,
    Destiny2Lightfall,
    Destiny2TheFinalShape,
    Destiny2TheEdgeOfFate,
    Destiny2Renegades,
}

/// Marathon releases.
#[derive(Clone, Copy, Debug, PartialEq, Eq, Structural)]
pub enum MarathonVersion {
    MarathonAlpha,
    Marathon,
}

/// The game and release a package directory belongs to.
#[derive(Clone, Copy, Debug, PartialEq, Eq, Structural)]
pub enum GameVersion {
    Destiny(DestinyVersion),
    Marathon(MarathonVersion),
}

/// Position of a Destiny release in release order.
pub open spec fn destiny_rank(v: DestinyVersion) -> int {
    match v {
        DestinyVersion::DestinyInternalAlpha => 0,
        DestinyVersion::DestinyFirstLookAlpha => 1,
        DestinyVersion::DestinyTheTakenKing => 2,
        DestinyVersion::DestinyRiseOfIron => 3,
        DestinyVersion::Destiny2Beta => 4,
        DestinyVersion::Destiny2Forsaken => 5,
        DestinyVersion::Destiny2Shadowkeep => 6,
        DestinyVersion::Destiny2BeyondLight => 7,
        DestinyVersion::Destiny2WitchQueen => 8,
        DestinyVersion::Destiny2Lightfall => 9,
        DestinyVersion::Destiny2TheFinalShape => 10,
        DestinyVersion::Destiny2TheEdgeOfFate => 11,
        DestinyVersion::Destiny2Renegades => 12,
    }
}

impl DestinyVersion {
    pub fn rank(&self) -> (r: u8)
        ensures
            r as int == destiny_rank(*self),
    {
        match self {
            DestinyVersion::DestinyInternalAlpha => 0,
            DestinyVersion::DestinyFirstLookAlpha => 1,
            DestinyVersion::DestinyTheTakenKing => 2,
            DestinyVersion::DestinyRiseOfIron => 3,
            DestinyVersion::Destiny2Beta => 4,
            DestinyVersion::Destiny2Forsaken => 5,
            DestinyVersion::Destiny2Shadowkeep => 6,
            DestinyVersion::Destiny2BeyondLight => 7,
            DestinyVersion::Destiny2WitchQueen => 8,
            DestinyVersion::Destiny2Lightfall => 9,
            DestinyVersion::Destiny2TheFinalShape => 10,
            DestinyVersion::Destiny2TheEdgeOfFate => 11,
            DestinyVersion::Destiny2Renegades => 12,
        }
    }

    /// Destiny 1 releases (up to Rise of Iron).
    pub fn is_d1(&self) -> (r: bool)
        ensures
            r == (destiny_rank(*self) <= destiny_rank(DestinyVersion::DestinyRiseOfIron)),
    {
        self.rank() <= 3
    }

    /// Destiny 2 releases before Beyond Light.
    pub fn is_prebl(&self) -> (r: bool)
        ensures
            r == (destiny_rank(DestinyVersion::Destiny2Beta) <= destiny_rank(*self)
                && destiny_rank(*self) <= destiny_rank(DestinyVersion::Destiny2Shadowkeep)),
    {
        4 <= self.rank() && self.rank() <= 6
    }
}

pub open spec fn spec_version_endian(v: GameVersion) -> Endian {
    match v {
        GameVersion::Destiny(DestinyVersion::DestinyInternalAlpha) => Endian::Big,
        GameVersion::Destiny(DestinyVersion::DestinyTheTakenKing) => Endian::Big,
        _ => Endian::Little,
    }
}

/// Releases whose array headers and string blobs use 32-bit big-endian counts.
pub open spec fn spec_uses_legacy_headers(v: GameVersion) -> bool {
    v == GameVersion::Destiny(DestinyVersion::DestinyInternalAlpha) || v == GameVersion::Destiny(
        DestinyVersion::DestinyTheTakenKing,
    )
}

impl GameVersion {
    /// Byte order of the release's package data: big endian for the X360/PS3 builds.
    pub fn endian(&self) -> (r: Endian)
        ensures
            r == spec_version_endian(*self),
    {
        match self {
            GameVersion::Destiny(DestinyVersion::DestinyInternalAlpha) => Endian::Big,
            GameVersion::Destiny(DestinyVersion::DestinyTheTakenKing) => Endian::Big,
            _ => Endian::Little,
        }
    }

    /// Does this release use the 32-bit big-endian array and string-blob headers?
    pub fn uses_legacy_headers(&self) -> (r: bool)
        ensures
            r == spec_uses_legacy_headers(*self),
    {
        match self {
            GameVersion::Destiny(DestinyVersion::DestinyInternalAlpha) => true,
            GameVersion::Destiny(DestinyVersion::DestinyTheTakenKing) => true,
            _ => false,
        }
    }
}

/// The platform a package directory was built for.
#[derive(Clone, Copy, Debug, PartialEq, Eq, Structural)]
pub enum Platform {
    Tool32,
    Win32,
    Win64,
    X360,
    PS3,
    Tool64,
    Win64v1,
    PS4,
    XboxOne,
    Stadia,
    PS5,
    Scarlett,
}

}
