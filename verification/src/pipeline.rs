//! A model of one build invocation under the toolchain's change detection.
//!
//! Between invocations the toolchain remembers, per target, the trigger value
//! it last observed and the fragment compiled into the artifact. One
//! invocation then either reuses the compiled fragment (trigger unchanged) or
//! re-runs the generator (first build, or trigger changed or newly present).
//! A generator run writes the collaborator's fragment verbatim — a full
//! replacement, never a partial or appended write — or aborts the invocation:
//! an unwritable output directory and a collaborator failure are both fatal,
//! and no fragment, partial or otherwise, reaches the compile step.
//!
//! The file and environment I/O around this decision lives outside the
//! library; callers hand in the observed trigger value and the collaborator's
//! outcome as plain values and perform the chosen action.

use vstd::prelude::*;

verus! {

/// Why a build invocation aborted.
#[derive(Debug)]
pub enum GenError {
    /// The invocation-scoped output directory is missing or not writable.
    UnwritableOutput,
    /// The metadata collaborator failed to introspect the environment; its
    /// message is passed on unchanged.
    Collaborator(String),
}

/// What the toolchain remembers about a target between build invocations.
#[derive(Debug)]
pub struct BuildState {
    /// The trigger value observed by the most recent invocation; `None` when
    /// the trigger variable was absent.
    pub last_trigger: Option<Vec<u8>>,
    /// The fragment compiled into the artifact; `None` before the first
    /// completed build.
    pub compiled: Option<Vec<u8>>,
}

/// The bytes held by an optional value.
pub open spec fn opt_bytes(o: Option<Vec<u8>>) -> Option<Seq<u8>> {
    match o {
        Option::None => Option::None,
        Option::Some(v) => Option::Some(v@),
    }
}

/// When an invocation re-runs the generator: on the first build, and
/// whenever the observed trigger value differs from the remembered one —
/// in particular when the trigger was absent before and is present now.
/// An unchanged value is equivalent to no signal.
pub open spec fn regen_needed(state: BuildState, observed: Option<Vec<u8>>) -> bool {
    state.compiled is None || opt_bytes(observed) != opt_bytes(state.last_trigger)
}

/// Byte-for-byte equality of two fragments or trigger values.
pub fn bytes_eq(a: &Vec<u8>, b: &Vec<u8>) -> (r: bool)
    ensures
        r == (a@ == b@),
{
    if a.len() != b.len() {
        return false;
    }
    let mut i: usize = 0;
    while i < a.len()
        invariant
            i <= a.len(),
            a.len() == b.len(),
            forall|k: int| 0 <= k < i ==> a@[k] == b@[k],
        decreases a.len() - i,
    {
        if a[i] != b[i] {
            return false;
        }
        i += 1;
    }
    proof {
        assert(a@ =~= b@);
    }
    true
}

/// Equality of two observed trigger values, where absence is a value of its
/// own: absent equals absent, and absent differs from every present value.
pub fn triggers_eq(a: &Option<Vec<u8>>, b: &Option<Vec<u8>>) -> (r: bool)
    ensures
        r == (opt_bytes(*a) == opt_bytes(*b)),
{
    match (a, b) {
        (Option::None, Option::None) => true,
        (Option::Some(x), Option::Some(y)) => bytes_eq(x, y),
        _ => false,
    }
}

/// What one generator run returns: the collaborator's fragment verbatim when
/// the output directory is writable and the collaborator succeeded, and
/// otherwise the failure, the collaborator's own message unchanged.
pub open spec fn generate_post(
    dir_writable: bool,
    collab: Result<Vec<u8>, String>,
    r: Result<Vec<u8>, GenError>,
) -> bool {
    if !dir_writable {
        r matches Err(GenError::UnwritableOutput)
    } else {
        match collab {
            Result::Ok(f) => r matches Ok(g) && g@ == f@,
            Result::Err(m) => r matches Err(GenError::Collaborator(m2)) && m2@ == m@,
        }
    }
}

/// One generator run: take the collaborator's fragment and hand it on
/// verbatim for the full-overwrite write, or abort. There is no recovery
/// path: stale or fabricated metadata would be worse than a failed build.
pub fn generate_fragment(dir_writable: bool, collab: Result<Vec<u8>, String>) -> (r: Result<
    Vec<u8>,
    GenError,
>)
    ensures
        generate_post(dir_writable, collab, r),
{
    if !dir_writable {
        return Result::Err(GenError::UnwritableOutput);
    }
    match collab {
        Result::Ok(f) => Result::Ok(f),
        Result::Err(m) => Result::Err(GenError::Collaborator(m)),
    }
}

/// What one build invocation leaves behind. With no regeneration needed the
/// invocation succeeds and the compiled fragment is byte-identical to the
/// previous one; with regeneration needed the result is the generator's: a
/// new state whose compiled fragment is the freshly generated one, or the
/// abort, after which the artifact is not produced at all.
pub open spec fn build_post(
    state: BuildState,
    observed: Option<Vec<u8>>,
    dir_writable: bool,
    collab: Result<Vec<u8>, String>,
    r: Result<BuildState, GenError>,
) -> bool {
    if !regen_needed(state, observed) {
        r matches Ok(s2) && opt_bytes(s2.compiled) == opt_bytes(state.compiled) && opt_bytes(
            s2.last_trigger,
        ) == opt_bytes(observed)
    } else {
        if !dir_writable {
            r matches Err(GenError::UnwritableOutput)
        } else {
            match collab {
                Result::Ok(f) => r matches Ok(s2) && opt_bytes(s2.compiled) == Option::Some(f@)
                    && opt_bytes(s2.last_trigger) == opt_bytes(observed),
                Result::Err(m) => r matches Err(GenError::Collaborator(m2)) && m2@ == m@,
            }
        }
    }
}

/// One build invocation, from observed trigger to the state the toolchain
/// remembers afterwards. `observed` is the trigger variable as the
/// invocation's harness read it, `dir_writable` whether the invocation's
/// output directory can be written, and `collab` the collaborator's outcome
/// for this run; the generator only runs — and `dir_writable` and `collab`
/// only matter — when regeneration is needed.
pub fn run_build(
    state: BuildState,
    observed: Option<Vec<u8>>,
    dir_writable: bool,
    collab: Result<Vec<u8>, String>,
) -> (r: Result<BuildState, GenError>)
    ensures
        build_post(state, observed, dir_writable, collab, r),
{
    let regen = state.compiled.is_none() || !triggers_eq(&observed, &state.last_trigger);
    if !regen {
        Result::Ok(BuildState { last_trigger: observed, compiled: state.compiled })
    } else {
        match generate_fragment(dir_writable, collab) {
            Result::Ok(f) => Result::Ok(
                BuildState { last_trigger: observed, compiled: Option::Some(f) },
            ),
            Result::Err(e) => Result::Err(e),
        }
    }
}

/// An invocation that observes the same trigger value as the previous one —
/// absence included — does not regenerate: the compiled fragment stays
/// byte-identical, whatever the collaborator would have produced.
pub proof fn lemma_unchanged_trigger_keeps_fragment(
    state: BuildState,
    observed: Option<Vec<u8>>,
    dir_writable: bool,
    collab: Result<Vec<u8>, String>,
    r: Result<BuildState, GenError>,
)
    requires
        build_post(state, observed, dir_writable, collab, r),
        state.compiled is Some,
        opt_bytes(observed) == opt_bytes(state.last_trigger),
    ensures
        r matches Ok(s2) && opt_bytes(s2.compiled) == opt_bytes(state.compiled),
{
}

/// An invocation that observes a changed trigger value — or a trigger that
/// was absent before and is present now — regenerates the fragment, even
/// though no other input changed: the compiled fragment becomes the
/// collaborator's fresh one.
pub proof fn lemma_changed_trigger_regenerates(
    state: BuildState,
    observed: Option<Vec<u8>>,
    fresh: Vec<u8>,
    r: Result<BuildState, GenError>,
)
    requires
        build_post(state, observed, true, Result::Ok(fresh), r),
        opt_bytes(observed) != opt_bytes(state.last_trigger),
    ensures
        r matches Ok(s2) && opt_bytes(s2.compiled) == Option::Some(fresh@),
{
}

/// A generator that cannot write its output directory aborts the invocation
/// whenever it would have run: the result is the abort, so no compiled
/// constants — no fragment, partial or otherwise — are produced.
pub proof fn lemma_unwritable_output_aborts(
    state: BuildState,
    observed: Option<Vec<u8>>,
    collab: Result<Vec<u8>, String>,
    r: Result<BuildState, GenError>,
)
    requires
        build_post(state, observed, false, collab, r),
        regen_needed(state, observed),
    ensures
        r matches Err(GenError::UnwritableOutput),
{
}

/// Fragment generation is idempotent: two runs against the same directory
/// state and the same collaborator outcome end alike — byte-identical
/// fragments, or the same abort.
pub proof fn lemma_generator_idempotent(
    dir_writable: bool,
    collab: Result<Vec<u8>, String>,
    r1: Result<Vec<u8>, GenError>,
    r2: Result<Vec<u8>, GenError>,
)
    requires
        generate_post(dir_writable, collab, r1),
        generate_post(dir_writable, collab, r2),
    ensures
        r1 matches Ok(f1) ==> r2 matches Ok(f2) && f1@ == f2@,
        r1 matches Err(GenError::UnwritableOutput) ==> r2 matches Err(
            GenError::UnwritableOutput,
        ),
        r1 matches Err(GenError::Collaborator(m1)) ==> r2 matches Err(GenError::Collaborator(m2))
            && m1@ == m2@,
{
}

/// The feedback loop end to end. A first build compiles the collaborator's
/// fragment. A rebuild that observes an unchanged trigger keeps the compiled
/// fragment byte-identical, so a constant such as a recorded build time does
/// not move. Once the forcing operation has handed the next invocation a
/// trigger value that differs from the remembered one, that build compiles
/// its run's fresh fragment, and the constant is the new build's.
pub proof fn lemma_end_to_end(
    s0: BuildState,
    t0: Option<Vec<u8>>,
    f0: Vec<u8>,
    s1: BuildState,
    f1: Result<Vec<u8>, String>,
    s2: BuildState,
    t2: Option<Vec<u8>>,
    f2: Vec<u8>,
    s3: BuildState,
)
    requires
        s0.compiled is None,
        // First build: the generator runs and succeeds.
        build_post(s0, t0, true, Result::Ok(f0), Result::Ok(s1)),
        // Second build: no forcing, the same trigger value observed.
        build_post(s1, t0, true, f1, Result::Ok(s2)),
        // The forcing operation produced a value that differs from the
        // remembered one (best effort: equality has negligible probability).
        opt_bytes(t2) != opt_bytes(t0),
        // Third build: the generator runs again and succeeds.
        build_post(s2, t2, true, Result::Ok(f2), Result::Ok(s3)),
    ensures
        opt_bytes(s1.compiled) == Option::Some(f0@),
        opt_bytes(s2.compiled) == opt_bytes(s1.compiled),
        opt_bytes(s3.compiled) == Option::Some(f2@),
{
}

} // verus!
