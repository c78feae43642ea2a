//! Calls that are handed to another runtime.

use crate::forge::{Forge, ForgeCall, ForgeReply, ForgeResult};
use crate::laws::double::fails_with;
use crate::runtime::{self, Handed, Outcome, Pinned};
use vstd::prelude::*;

verus! {

/// A call that ran is told as it came out; one that was lost is told as an error, with its
/// cause.
pub proof fn a_handed_call_is_told<T>(outcome: Result<ForgeResult<T>, String>, r: ForgeResult<T>)
    requires
        call_ensures(runtime::joined::<T>, (outcome,), r),
    ensures
        outcome matches Ok(own) ==> r == own,
        outcome matches Err(cause) ==>
            (r matches Err(e) && e@ == "forge call failed to join: "@ + cause@),
{
}

/// A pinned adapter tells the adapter's own reply to the same call, or, where the call was
/// lost, the error that says so.
pub proof fn a_pinned_call_is_told<H: Handed>(
    pre: Pinned<H>,
    call: ForgeCall,
    reply: ForgeReply,
    post: Pinned<H>,
)
    requires
        Pinned::<H>::answers(pre, call, reply, post),
    ensures
        exists|outcome: Outcome| #[trigger]
            H::outcomes(pre.adapter(), call, outcome, post.adapter()) && match outcome {
            Outcome::Ran(own) => reply == own,
            Outcome::Lost(cause) => fails_with(reply@, "forge call failed to join: "@ + cause@),
        },
{
}

} // verus!
