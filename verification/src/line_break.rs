use vstd::prelude::*;

use crate::sys;

verus! {

/// Line break encoding.
#[derive(Copy, Clone, Debug, Eq, Hash, Ord, PartialEq, PartialOrd, Structural)]
pub enum LineBreak {
    /// CR character (classic Mac).
    Cr,
    /// LN character (UNIX).
    Ln,
    /// CR LN characters (DOS).
    CrLn,
}

impl LineBreak {
    /// The code that LibYAML uses for this value.
    pub open spec fn code(self) -> int {
        match self {
            Self::Cr => sys::YAML_CR_BREAK as int,
            Self::Ln => sys::YAML_LN_BREAK as int,
            Self::CrLn => sys::YAML_CRLN_BREAK as int,
        }
    }

    /// The code of an optional value, where `None` is `YAML_ANY_BREAK`.
    pub open spec fn option_code(value: Option<Self>) -> int {
        match value {
            Some(v) => v.code(),
            None => sys::YAML_ANY_BREAK as int,
        }
    }

    /// Convert to `yaml_break_t`.
    pub fn into_raw(self) -> (raw: libyaml_sys::yaml_break_t)
        ensures
            raw == self.code(),
    {
        match self {
            Self::Cr => sys::YAML_CR_BREAK,
            Self::Ln => sys::YAML_LN_BREAK,
            Self::CrLn => sys::YAML_CRLN_BREAK,
        }
    }

    /// Convert to `yaml_break_t`; `None` becomes `YAML_ANY_BREAK`.
    pub fn option_into_raw(value: Option<Self>) -> (raw: libyaml_sys::yaml_break_t)
        ensures
            raw == Self::option_code(value),
    {
        match value {
            Some(v) => v.into_raw(),
            None => sys::YAML_ANY_BREAK,
        }
    }
}

} // verus!
