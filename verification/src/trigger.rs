//! The rebuild trigger: one environment variable with a fixed name whose
//! value the generation step declares as an input.
//!
//! The forcing operation computes a fresh value for that variable by hashing
//! the current wall-clock time; the value is best-effort distinct, not
//! guaranteed distinct (identical clock reads or hash collisions can repeat a
//! value, with negligible probability). Setting the variable is a process
//! write that lives outside the library; [`next_trigger_value`] hands the
//! caller the text to set. The write only reaches a later build when the
//! caller's environment is inherited by that build's invocation, e.g. from a
//! wrapper script or a pre-build step, not from inside the already compiled
//! host program.

use vstd::prelude::*;
use crate::numeral::{decimal, decimal_of, lemma_decimal_ascii, lemma_decimal_injective,
    lemma_decimal_nonempty};

verus! {

/// Name of the environment variable that carries the rebuild trigger.
pub open spec fn trigger_env_var_spec() -> Seq<char> {
    "BUILT_AT_BUILD"@
}

/// The fixed name of the trigger environment variable.
pub fn trigger_env_var() -> (r: &'static str)
    ensures
        r@ == trigger_env_var_spec(),
{
    "BUILT_AT_BUILD"
}

/// The generator's one-line declaration of interest in the trigger: printed
/// once per generator run, it tells the toolchain to re-run the generator
/// whenever the trigger's observed value changes.
pub open spec fn rerun_declaration_spec() -> Seq<char> {
    "cargo::rerun-if-env-changed=BUILT_AT_BUILD"@
}

/// The line the generator prints to declare the trigger as an input.
pub fn rerun_declaration() -> (r: &'static str)
    ensures
        r@ == rerun_declaration_spec(),
{
    "cargo::rerun-if-env-changed=BUILT_AT_BUILD"
}

/// Relies on `std::time::SystemTime::now` and `std::hash::DefaultHasher`
/// (via `std::hash::Hash` and `std::hash::Hasher`): hashes the current
/// wall-clock time to a 64-bit value. The result depends on the clock, so
/// nothing is promised of it; neither call panics.
#[verifier::external_body]
fn hash_of_now() -> u64 {
    let mut hasher = std::hash::DefaultHasher::new();
    std::hash::Hash::hash(&std::time::SystemTime::now(), &mut hasher);
    std::hash::Hasher::finish(&hasher)
}

/// Computes a fresh trigger value: the decimal numeral of a hash of the
/// current wall-clock time. The value is ASCII digit text, and it encodes
/// exactly one 64-bit hash; values computed from distinct hashes are
/// distinct ([`distinct_hashes_give_distinct_values`]).
pub fn next_trigger_value() -> (v: Vec<u8>)
    ensures
        exists|h: u64| v@ == decimal(h as nat),
        v@.len() >= 1,
        forall|i: int| 0 <= i < v@.len() ==> 48 <= #[trigger] v@[i] <= 57,
{
    let h = hash_of_now();
    let v = decimal_of(h);
    proof {
        assert(v@ == decimal(h as nat));
        lemma_decimal_nonempty(h as nat);
        lemma_decimal_ascii(h as nat);
    }
    v
}

/// Trigger values are as distinct as the hashes behind them: the decimal
/// encoding loses nothing, so the toolchain's text comparison of the
/// environment variable agrees with a comparison of the hashes.
pub proof fn distinct_hashes_give_distinct_values(a: u64, b: u64)
    ensures
        (decimal(a as nat) == decimal(b as nat)) <==> a == b,
{
    if a != b {
        lemma_decimal_injective(a as nat, b as nat);
    }
}

} // verus!
