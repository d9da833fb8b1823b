use vstd::prelude::*;
use vstd::string::StringSliceAdditionalSpecFns;
use crate::identity::{extract_identity, identity_of, text_of, CallIdentity};
use crate::registry::{added, Key, Registry, Step};

verus! {

/// How one intercepted call is handled before it is dispatched.
pub enum CallPlan {
    /// No identity, or its registration is skipped: dispatch untimed.
    Unmeasured,
    /// The identity has a histogram: time the call into it.
    Measure(CallIdentity),
    /// The identity has no histogram yet: register one first.
    Register(CallIdentity),
}

/// How the wrapped handler's call ended.
pub enum CallOutcome {
    /// It returned a response.
    Succeeded,
    /// It returned an error of its own.
    Failed,
    /// It was dropped or aborted before it finished.
    Cancelled,
}

/// The plan for a call, given what its metadata yields and the registry.
pub open spec fn plan_of<H>(
    registry: &Registry<H>,
    path: Seq<u8>,
    caller: Option<Seq<char>>,
    plan: CallPlan,
) -> bool {
    match identity_of(path, caller) {
        None => plan is Unmeasured,
        Some(want) => {
            let k: Key = (want.0, vstd::utf8::decode_utf8(want.1));
            match registry.step_of(k) {
                Step::Ready => plan matches CallPlan::Measure(id) && id.key() == k,
                Step::Create => plan matches CallPlan::Register(id) && id.key() == k,
                Step::Skip => plan is Unmeasured,
            }
        },
    }
}

/// Decides how an intercepted call is handled: identifies it from its path
/// and client-name entry, then asks the registry for its histogram. A call
/// that cannot be identified is dispatched unmeasured; the registry is only
/// read.
pub fn plan_call<H>(registry: &Registry<H>, path: &str, client_name: Option<&str>) -> (r:
    CallPlan)
    requires
        registry.wf(),
    ensures
        plan_of(registry, path.spec_bytes(), text_of(client_name), r),
{
    match extract_identity(path, client_name) {
        None => CallPlan::Unmeasured,
        Some(id) => {
            proof {
                vstd::utf8::encode_utf8_decode_utf8(id.method@);
            }
            match registry.next_step(&id) {
                Step::Ready => CallPlan::Measure(id),
                Step::Create => CallPlan::Register(id),
                Step::Skip => CallPlan::Unmeasured,
            }
        },
    }
}

/// Takes in the outcome of registering a histogram for `id`: a created
/// histogram is added (unless the identity gained one meanwhile), a failure
/// is noted. The result tells whether the call is timed, which is exactly
/// when the identity has a histogram afterwards; a failure never reaches the
/// call's own result.
pub fn settle_registration<H, E>(
    registry: &mut Registry<H>,
    id: CallIdentity,
    created: Result<H, E>,
) -> (timed: bool)
    requires
        old(registry).wf(),
    ensures
        final(registry).wf(),
        final(registry).remembers_failures() == old(registry).remembers_failures(),
        timed == final(registry)@.contains_key(id.key()),
        match created {
            Ok(h) => {
                &&& final(registry)@ == added(old(registry)@, id.key(), h)
                &&& final(registry).failed_keys() == old(registry).failed_keys()
            },
            Err(_) => final(registry)@ == old(registry)@ && final(registry).step_of(id.key())
                == if old(registry)@.contains_key(id.key()) {
                Step::Ready
            } else if old(registry).remembers_failures() {
                Step::Skip
            } else {
                Step::Create
            },
        },
{
    match created {
        Ok(h) => {
            registry.add(id, h);
            true
        },
        Err(_) => {
            let known = registry.contains(&id);
            registry.note_failure(id);
            known
        },
    }
}

/// Whether a finished call is recorded: a call that returned, with a
/// response or with an error of its own, is timed; a cancelled one never is.
pub fn records_observation(outcome: CallOutcome) -> (r: bool)
    ensures
        r == !(outcome is Cancelled),
{
    match outcome {
        CallOutcome::Cancelled => false,
        _ => true,
    }
}

} // verus!
