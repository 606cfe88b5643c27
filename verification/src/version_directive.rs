use vstd::prelude::*;

verus! {

/// Document version directive.
#[derive(Copy, Clone, Debug, Eq, Hash, Ord, PartialEq, PartialOrd, Structural)]
pub struct VersionDirective(pub u8, pub u8);

/// The fields of a `yaml_version_directive_t`.
#[derive(Copy, Clone, Debug, Eq, Hash, PartialEq, Structural)]
pub struct RawVersionDirective {
    /// The major version number.
    pub major: i32,
    /// The minor version number.
    pub minor: i32,
}

impl VersionDirective {
    /// The version directive that the raw fields are read as: each number is
    /// cut down to its lowest eight bits.
    pub open spec fn of_raw(raw: RawVersionDirective) -> Self {
        VersionDirective(raw.major as u8, raw.minor as u8)
    }

    /// The raw fields of a version directive.
    pub open spec fn raw(self) -> RawVersionDirective {
        RawVersionDirective { major: self.0 as i32, minor: self.1 as i32 }
    }

    /// Convert from `yaml_version_directive_t`.
    pub fn from_raw(raw: RawVersionDirective) -> (version: Self)
        ensures
            version == Self::of_raw(raw),
            0 <= raw.major <= u8::MAX ==> version.0 == raw.major,
            0 <= raw.minor <= u8::MAX ==> version.1 == raw.minor,
    {
        VersionDirective(#[verifier::truncate] (raw.major as u8), #[verifier::truncate] (raw.minor as u8))
    }

    /// Convert to `yaml_version_directive_t`.
    pub fn into_raw(self) -> (raw: RawVersionDirective)
        ensures
            raw == self.raw(),
            raw.major == self.0,
            raw.minor == self.1,
    {
        RawVersionDirective { major: self.0 as i32, minor: self.1 as i32 }
    }

    /// A version directive is read back unchanged from its raw fields.
    pub proof fn lemma_raw_round_trip(self)
        ensures
            Self::of_raw(self.raw()) == self,
    {
    }
}

} // verus!
