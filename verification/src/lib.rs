//! Verified core of the medic development-workflow tool.
use vstd::prelude::*;

pub mod app_result;
pub mod args;
pub mod audit;
pub mod audit_step;
pub mod cargo_step;
pub mod check;
pub mod cli;
pub mod config;
pub mod context;
pub mod doctor;
pub mod elixir;
pub mod error;
pub mod extra;
pub mod git;
pub mod github;
pub mod keyed;
pub mod medic_step;
pub mod noop_config;
pub mod outdated;
pub mod outdated_check;
pub mod recoverable;
pub mod runnable;
pub mod shell;
pub mod shipit;
pub mod shipit_step;
pub mod step;
pub mod step_result;
pub mod style;
pub mod text;
pub mod theme;
pub mod util;
pub mod workflow;

verus! {

/// The exit status with which medic quits on request.
pub const QUIT_STATUS_CODE: i32 = 2;

/// The text that `bytes` encode as UTF-8, or `None` when they are not
/// valid UTF-8 (`String::from_utf8`).
#[verifier::external_body]
pub(crate) fn utf8_decode(bytes: Vec<u8>) -> (r: Option<String>)
    ensures
        r is Some <==> vstd::utf8::valid_utf8(bytes@),
        r matches Some(s) ==> s@ == vstd::utf8::decode_utf8(bytes@),
{
    String::from_utf8(bytes).ok()
}

/// The text a process wrote, which must be UTF-8.
pub fn std_to_string(data: Vec<u8>) -> (r: String)
    requires
        vstd::utf8::valid_utf8(data@),
    ensures
        r@ == vstd::utf8::decode_utf8(data@),
{
    match utf8_decode(data) {
        Some(s) => s,
        None => String::new(),
    }
}

} // verus!
