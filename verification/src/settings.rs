use vstd::prelude::*;

use crate::db::Database;
use crate::parse::parse_u64;
use crate::parse::u64_parseable;
use crate::parse::u64_value;

verus! {

use vstd::utf8::encode_utf8;

/// Seconds of inactivity before the user counts as idle, when the store
/// holds no usable value.
pub const DEFAULT_IDLE_THRESHOLD_SECONDS: u64 = 300;

/// The idle threshold a stored value yields: the value read as an unsigned
/// decimal where it is one, the default everywhere else.
pub fn threshold_or_default(value: &Option<String>) -> (t: u64)
    ensures
        match value {
            Some(s) => if u64_parseable(encode_utf8(s@)) {
                t == u64_value(encode_utf8(s@))
            } else {
                t == DEFAULT_IDLE_THRESHOLD_SECONDS
            },
            None => t == DEFAULT_IDLE_THRESHOLD_SECONDS,
        },
{
    match value {
        Some(s) => match parse_u64(s.as_str()) {
            Some(x) => x,
            None => DEFAULT_IDLE_THRESHOLD_SECONDS,
        },
        None => DEFAULT_IDLE_THRESHOLD_SECONDS,
    }
}

/// The idle threshold the sampling loop runs with: read once from the
/// settings store at loop startup; a later change to the stored value takes
/// effect only when the loop is restarted.
pub fn get_idle_threshold(db: &Database) -> (t: u64) {
    let value = db.get_setting("idle_threshold_seconds");
    threshold_or_default(&value)
}

} // verus!
