//! What a caller may ask of a context.

use vstd::prelude::*;

use crate::info::GLVersion;

verus! {

/// The flag bit for an alpha channel.
pub const ALPHA: u8 = 0x01;

/// The flag bit for a depth buffer.
pub const DEPTH: u8 = 0x02;

/// The flag bit for a stencil buffer.
pub const STENCIL: u8 = 0x04;

/// The flag bit for the compatibility profile.
pub const COMPATIBILITY_PROFILE: u8 = 0x08;

/// A set of context features, one bit each.
#[derive(Clone, Copy, Debug, PartialEq, Eq, Structural)]
pub struct ContextAttributeFlags {
    /// The bits of the features that are asked for.
    pub bits: u8,
}

impl ContextAttributeFlags {
    /// Whether every feature of `other` is in this set.
    pub open spec fn contains_spec(&self, other: ContextAttributeFlags) -> bool {
        self.bits & other.bits == other.bits
    }

    /// No feature.
    pub fn empty() -> (flags: ContextAttributeFlags)
        ensures
            flags.bits == 0,
    {
        ContextAttributeFlags { bits: 0 }
    }

    /// Whether every feature of `other` is in this set.
    #[verifier::when_used_as_spec(contains_spec)]
    pub fn contains(&self, other: ContextAttributeFlags) -> (all: bool)
        ensures
            all == self.contains_spec(other),
    {
        self.bits & other.bits == other.bits
    }
}

/// The GL version and the features that a context is asked to have.
#[derive(Clone, Copy, Debug, PartialEq, Eq, Structural)]
pub struct ContextAttributes {
    /// The GL version.
    pub version: GLVersion,
    /// The features.
    pub flags: ContextAttributeFlags,
}

impl ContextAttributes {
    /// The attributes that ask for nothing: version 0.0 and no feature.
    pub open spec fn zeroed_spec() -> ContextAttributes {
        ContextAttributes {
            version: GLVersion { major: 0, minor: 0 },
            flags: ContextAttributeFlags { bits: 0 },
        }
    }

    /// The attributes that ask for nothing: version 0.0 and no feature.
    #[verifier::when_used_as_spec(zeroed_spec)]
    pub fn zeroed() -> (attributes: ContextAttributes)
        ensures
            attributes == Self::zeroed_spec(),
    {
        ContextAttributes { version: GLVersion::new(0, 0), flags: ContextAttributeFlags::empty() }
    }
}

} // verus!
