//! Tags for YAML language-independent types.
//!
//! The contents of this module are based on the list of language-independent
//! YAML tags defined under the `yaml.org` domain.  The list is available at
//! <https://yaml.org/type>.

use vstd::prelude::*;

verus! {

/// Unordered set of `key: value` pairs without duplicates.
pub const MAP: &'static str = "tag:yaml.org,2002:map";

/// Ordered sequence of `key: value` pairs without duplicates.
pub const OMAP: &'static str = "tag:yaml.org,2002:omap";

/// Ordered sequence of `key: value` pairs allowing duplicates.
pub const PAIRS: &'static str = "tag:yaml.org,2002:pairs";

/// Unordered set of non-equal values.
pub const SET: &'static str = "tag:yaml.org,2002:set";

/// Sequence of arbitrary values.
pub const SEQ: &'static str = "tag:yaml.org,2002:seq";

/// A sequence of zero or more octets (8-bit values).
pub const BINARY: &'static str = "tag:yaml.org,2002:binary";

/// Mathematical booleans.
pub const BOOL: &'static str = "tag:yaml.org,2002:bool";

/// Floating-point approximation to real numbers.
pub const FLOAT: &'static str = "tag:yaml.org,2002:float";

/// Mathematical integers.
pub const INT: &'static str = "tag:yaml.org,2002:int";

/// Specify one or more mappings to be merged with the current one.
pub const MERGE: &'static str = "tag:yaml.org,2002:merge";

/// Devoid of value.
pub const NULL: &'static str = "tag:yaml.org,2002:null";

/// A sequence of zero or more Unicode characters.
pub const STR: &'static str = "tag:yaml.org,2002:str";

/// A point in time.
pub const TIMESTAMP: &'static str = "tag:yaml.org,2002:timestamp";

/// Specify the default value of a mapping.
pub const VALUE: &'static str = "tag:yaml.org,2002:value";

/// Keys for encoding YAML in YAML.
pub const YAML: &'static str = "tag:yaml.org,2002:yaml";

} // verus!
