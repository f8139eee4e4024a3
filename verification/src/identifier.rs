//! Random identifiers for new records.

use uuid::Uuid;
use vstd::prelude::*;

verus! {

/// Whether `c` is a digit or one of the letters `a` to `f`.
pub open spec fn is_lower_hex(c: char) -> bool {
    let code = c as u32;
    0x30 <= code <= 0x39 || 0x61 <= code <= 0x66
}

/// Whether `text` has the shape of a random identifier in its hyphenated
/// form: 36 characters, hyphens after the groups of 8, 4, 4 and 4 digits,
/// lower-case hexadecimal digits elsewhere, and the version digit `4`.
pub open spec fn is_random_id_text(text: Seq<char>) -> bool {
    &&& text.len() == 36
    &&& forall|i: int|
        0 <= i < 36 ==> if i == 8 || i == 13 || i == 18 || i == 23 {
            #[trigger] text[i] == '-'
        } else {
            is_lower_hex(text[i])
        }
    &&& text[14] == '4'
}

/// Draws a random identifier with `uuid::Uuid::new_v4` and writes it with
/// its `Display` form.
///
/// Trusted: the identifier is random, so only its shape is claimed, as the
/// uuid crate documents the hyphenated lower-case form of a version 4
/// identifier. The crate stops the program where the operating system
/// yields no random bytes.
#[verifier::external_body]
pub(crate) fn random_id_text() -> (id: String)
    ensures
        is_random_id_text(id@),
{
    Uuid::new_v4().to_string()
}

} // verus!
