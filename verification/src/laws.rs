//! What the generator promises as a whole, proved over the emission and
//! installation functions that the stages' contracts are stated with.

use vstd::prelude::*;

use crate::combinator::RequestModel;
use crate::combinator::ops_assign_requests;
use crate::combinator::ops_lprim_requests;
use crate::combinator::ops_requests;
use crate::combinator::ops_rprim_requests;
use crate::combinator::uni_ops_requests;
use crate::descriptor::DescriptorModel;
use crate::installer::BindingModel;
use crate::installer::assign_binding;
use crate::splitter::doc_part;
use crate::splitter::lemma_replay_keeps_split;
use crate::splitter::other_part;

verus! {

/// One sibling is faithful to its input descriptor: it carries the input's
/// documentation annotations, unmodified and in original order; it carries
/// the input's non-documentation annotations, unmodified and in original
/// order; and its body is the canonical input body, unrewritten.
pub open spec fn sibling_faithful(r: RequestModel, d: DescriptorModel) -> bool {
    &&& doc_part(r.descriptor.annotations) == doc_part(d.annotations)
    &&& other_part(r.descriptor.annotations) == other_part(d.annotations)
    &&& r.descriptor.body == d.body
}

/// Every sibling that any combinator emits is faithful to its input: the
/// documentation and the other annotations of the input reappear on each of
/// them, unmodified and in original order, and every sibling's body is the
/// canonical input body.
pub proof fn lemma_siblings_faithful(tp: Seq<char>, d: DescriptorModel)
    ensures
        forall|i: int|
            0 <= i < ops_requests(tp, d).len() ==> sibling_faithful(
                #[trigger] ops_requests(tp, d)[i],
                d,
            ),
        forall|i: int|
            0 <= i < ops_rprim_requests(tp, d).len() ==> sibling_faithful(
                #[trigger] ops_rprim_requests(tp, d)[i],
                d,
            ),
        forall|i: int|
            0 <= i < ops_lprim_requests(tp, d).len() ==> sibling_faithful(
                #[trigger] ops_lprim_requests(tp, d)[i],
                d,
            ),
        forall|i: int|
            0 <= i < uni_ops_requests(tp, d).len() ==> sibling_faithful(
                #[trigger] uni_ops_requests(tp, d)[i],
                d,
            ),
        forall|i: int|
            0 <= i < ops_assign_requests(tp, d).len() ==> sibling_faithful(
                #[trigger] ops_assign_requests(tp, d)[i],
                d,
            ),
{
    lemma_replay_keeps_split(d.annotations);
}

/// Emission is a function of the operation path and the descriptor alone:
/// any two outcomes that one emission function produces for the same input
/// are structurally identical. Each combinator's contract pins its result to
/// such a function of the input, so re-running a combinator, in any order and
/// any number of times, yields identical sibling sets.
pub proof fn lemma_emission_deterministic(
    emit: spec_fn(Seq<char>, DescriptorModel) -> Seq<RequestModel>,
    tp: Seq<char>,
    d: DescriptorModel,
    first: Seq<RequestModel>,
    second: Seq<RequestModel>,
)
    requires
        first == emit(tp, d),
        second == emit(tp, d),
    ensures
        first == second,
{
}

/// Installation is a function of the operation path and the descriptor
/// alone, in the same way: any two bindings that one installation function
/// produces for the same input are structurally identical, so the order in
/// which the expansion engine re-invokes the installers cannot change what
/// is installed.
pub proof fn lemma_installation_deterministic(
    install: spec_fn(Seq<char>, DescriptorModel) -> BindingModel,
    tp: Seq<char>,
    d: DescriptorModel,
    first: BindingModel,
    second: BindingModel,
)
    requires
        first == install(tp, d),
        second == install(tp, d),
    ensures
        first == second,
{
}

/// The compound-assignment installer binds the subject by mutable reference
/// on every descriptor, whatever ownership mode a combinator (or the user)
/// wrote for the subject operand.
pub proof fn lemma_assign_subject_mut_ref(tp: Seq<char>, d: DescriptorModel)
    ensures
        assign_binding(tp, d).subject_mut_ref,
{
}

} // verus!
