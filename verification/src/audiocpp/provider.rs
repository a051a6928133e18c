//! Default inference backend of the audio.cpp engine per platform.
use vstd::prelude::*;

use crate::audiocpp::locator::{platform_triple_of, EngineTarget};
use crate::text::str_eq;

verus! {

/// Default backend of a platform triple: cuda on windows-x86_64, metal on
/// darwin-aarch64, cpu elsewhere (an explicit provider setting always wins).
pub open spec fn default_provider_of(triple: Seq<char>) -> Seq<char> {
    if triple == "windows-x86_64"@ {
        "cuda"@
    } else if triple == "darwin-aarch64"@ {
        "metal"@
    } else {
        "cpu"@
    }
}

pub fn default_provider_for(triple: &str) -> (r: &'static str)
    ensures
        r@ == default_provider_of(triple@),
{
    if str_eq(triple, "windows-x86_64") {
        "cuda"
    } else if str_eq(triple, "darwin-aarch64") {
        "metal"
    } else {
        "cpu"
    }
}

/// Default backend of the platform the engine is built for.
pub fn current_default_provider(target: EngineTarget) -> (r: &'static str)
    ensures
        r@ == default_provider_of(platform_triple_of(target)),
{
    default_provider_for(target.platform_triple())
}

} // verus!
