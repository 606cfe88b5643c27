use vstd::prelude::*;

use crate::text::{decode_text, text_from_raw};

verus! {

/// Return LibYAML version as a string, given the bytes of the C string that
/// `yaml_get_version_string` reported.
pub fn lib_version_string(raw: &[u8]) -> (version: String)
    ensures
        version@ == decode_text(raw@),
{
    text_from_raw(raw)
}

} // verus!
