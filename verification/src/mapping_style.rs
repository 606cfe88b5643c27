use vstd::prelude::*;

use crate::sys;

verus! {

/// Mapping style.
#[derive(Copy, Clone, Debug, Eq, Hash, Ord, PartialEq, PartialOrd, Structural)]
pub enum MappingStyle {
    /// Block mapping style.
    Block,
    /// Flow mapping style.
    Flow,
}

impl MappingStyle {
    /// The code that LibYAML uses for this value.
    pub open spec fn code(self) -> int {
        match self {
            Self::Block => sys::YAML_BLOCK_MAPPING_STYLE as int,
            Self::Flow => sys::YAML_FLOW_MAPPING_STYLE as int,
        }
    }

    /// The code of an optional value, where `None` is `YAML_ANY_MAPPING_STYLE`.
    pub open spec fn option_code(value: Option<Self>) -> int {
        match value {
            Some(v) => v.code(),
            None => sys::YAML_ANY_MAPPING_STYLE as int,
        }
    }

    /// The value that a code stands for; `None` where it stands for none.
    pub open spec fn of_code(code: int) -> Option<Self> {
        if code == sys::YAML_BLOCK_MAPPING_STYLE {
            Some(Self::Block)
        } else if code == sys::YAML_FLOW_MAPPING_STYLE {
            Some(Self::Flow)
        } else {
            None
        }
    }

    /// Convert from `yaml_mapping_style_t`; `YAML_ANY_MAPPING_STYLE` becomes `None`.
    pub fn from_raw(raw: libyaml_sys::yaml_mapping_style_t) -> (value: Option<Self>)
        ensures
            value == Self::of_code(raw as int),
    {
        if raw == sys::YAML_BLOCK_MAPPING_STYLE {
            Some(Self::Block)
        } else if raw == sys::YAML_FLOW_MAPPING_STYLE {
            Some(Self::Flow)
        } else {
            None
        }
    }

    /// Convert to `yaml_mapping_style_t`.
    pub fn into_raw(self) -> (raw: libyaml_sys::yaml_mapping_style_t)
        ensures
            raw == self.code(),
    {
        match self {
            Self::Block => sys::YAML_BLOCK_MAPPING_STYLE,
            Self::Flow => sys::YAML_FLOW_MAPPING_STYLE,
        }
    }

    /// Convert to `yaml_mapping_style_t`; `None` becomes `YAML_ANY_MAPPING_STYLE`.
    pub fn option_into_raw(value: Option<Self>) -> (raw: libyaml_sys::yaml_mapping_style_t)
        ensures
            raw == Self::option_code(value),
    {
        match value {
            Some(v) => v.into_raw(),
            None => sys::YAML_ANY_MAPPING_STYLE,
        }
    }

    /// Converting a value to its code and back gives the value again, and
    /// `YAML_ANY_MAPPING_STYLE` comes back as `None`.
    pub proof fn lemma_code_round_trip(value: Option<Self>)
        ensures
            Self::of_code(Self::option_code(value)) == value,
    {
    }
}

} // verus!
