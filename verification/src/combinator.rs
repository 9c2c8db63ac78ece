//! The combinator stage: fans one permutation-agnostic descriptor out into
//! sibling descriptors, one per ownership permutation, each tagged with the
//! installer that must consume it. The driver that owns the expansion loop
//! hands every emitted request back to the matching installer.

use vstd::prelude::*;

use crate::descriptor::DescriptorModel;
use crate::descriptor::FunctionDescriptor;
use crate::descriptor::Operand;
use crate::descriptor::OperandModel;
use crate::descriptor::ShapeError;
use crate::descriptor::assign_shape_error;
use crate::descriptor::binary_shape_error;
use crate::descriptor::clone_opt_string;
use crate::descriptor::clone_strings;
use crate::descriptor::unary_shape_error;
use crate::splitter::replay_annotations;
use crate::splitter::replayed;

verus! {

/// Which installer must consume a sibling descriptor.
#[derive(Clone, Copy, Debug, PartialEq, Eq, Structural)]
pub enum InstallerKind {
    Binary,
    Unary,
    Assign,
}

/// One emitted sibling: a fully ownership-resolved descriptor together with
/// the operation interface path and the installer that must process it.
#[derive(Debug, PartialEq, Eq)]
pub struct SiblingRequest {
    pub installer: InstallerKind,
    pub trait_path: String,
    pub descriptor: FunctionDescriptor,
}

/// Mathematical model of a [`SiblingRequest`].
#[verifier::ext_equal]
pub struct RequestModel {
    pub installer: InstallerKind,
    pub trait_path: Seq<char>,
    pub descriptor: DescriptorModel,
}

impl View for SiblingRequest {
    type V = RequestModel;

    open spec fn view(&self) -> RequestModel {
        RequestModel {
            installer: self.installer,
            trait_path: self.trait_path@,
            descriptor: self.descriptor@,
        }
    }
}

impl DeepView for SiblingRequest {
    type V = RequestModel;

    open spec fn deep_view(&self) -> RequestModel {
        self@
    }
}

/// An operand re-declared with the given ownership mode, everything else kept.
pub open spec fn with_mode(o: OperandModel, by_ref: bool) -> OperandModel {
    OperandModel { pattern: o.pattern, ty: o.ty, is_subject: o.is_subject, is_reference: by_ref }
}

/// The binary sibling of `d` whose subject and right-hand operand carry the
/// given ownership modes. It keeps name, generics, constraint clause, return
/// type and body, and carries the split annotations: documentation first,
/// then the rest, each in original order.
pub open spec fn binary_sibling(
    tp: Seq<char>,
    d: DescriptorModel,
    lhs_ref: bool,
    rhs_ref: bool,
) -> RequestModel {
    RequestModel {
        installer: InstallerKind::Binary,
        trait_path: tp,
        descriptor: DescriptorModel {
            name: d.name,
            generics: d.generics,
            where_clause: d.where_clause,
            operands: seq![with_mode(d.operands[0], lhs_ref), with_mode(d.operands[1], rhs_ref)],
            return_type: d.return_type,
            body: d.body,
            annotations: replayed(d.annotations),
        },
    }
}

/// The unary sibling of `d` whose single subject operand carries the given
/// ownership mode.
pub open spec fn unary_sibling(tp: Seq<char>, d: DescriptorModel, subject_ref: bool) -> RequestModel {
    RequestModel {
        installer: InstallerKind::Unary,
        trait_path: tp,
        descriptor: DescriptorModel {
            name: d.name,
            generics: d.generics,
            where_clause: d.where_clause,
            operands: seq![with_mode(d.operands[0], subject_ref)],
            return_type: d.return_type,
            body: d.body,
            annotations: replayed(d.annotations),
        },
    }
}

/// The compound-assignment sibling of `d` whose right-hand operand carries
/// the given ownership mode. The subject operand is passed through as
/// written; the installer binds it by mutable reference whatever it says.
/// An assignment returns nothing, so the sibling carries no return type.
pub open spec fn assign_sibling(tp: Seq<char>, d: DescriptorModel, rhs_ref: bool) -> RequestModel {
    RequestModel {
        installer: InstallerKind::Assign,
        trait_path: tp,
        descriptor: DescriptorModel {
            name: d.name,
            generics: d.generics,
            where_clause: d.where_clause,
            operands: seq![d.operands[0], with_mode(d.operands[1], rhs_ref)],
            return_type: None,
            body: d.body,
            annotations: replayed(d.annotations),
        },
    }
}

/// The full binary permutation set, in emission order:
/// (owned, owned), (borrowed, borrowed), (owned, borrowed), (borrowed, owned).
pub open spec fn ops_requests(tp: Seq<char>, d: DescriptorModel) -> Seq<RequestModel> {
    seq![
        binary_sibling(tp, d, false, false),
        binary_sibling(tp, d, true, true),
        binary_sibling(tp, d, false, true),
        binary_sibling(tp, d, true, false),
    ]
}

/// The right-primitive permutation subset, in emission order:
/// (owned, owned), (borrowed, owned). The right-hand side is never borrowed.
pub open spec fn ops_rprim_requests(tp: Seq<char>, d: DescriptorModel) -> Seq<RequestModel> {
    seq![binary_sibling(tp, d, false, false), binary_sibling(tp, d, true, false)]
}

/// The left-primitive permutation subset, in emission order:
/// (owned, owned), (owned, borrowed). The subject is never borrowed.
pub open spec fn ops_lprim_requests(tp: Seq<char>, d: DescriptorModel) -> Seq<RequestModel> {
    seq![binary_sibling(tp, d, false, false), binary_sibling(tp, d, false, true)]
}

/// The unary permutation set, in emission order: owned, then borrowed.
pub open spec fn uni_ops_requests(tp: Seq<char>, d: DescriptorModel) -> Seq<RequestModel> {
    seq![unary_sibling(tp, d, false), unary_sibling(tp, d, true)]
}

/// The compound-assignment permutation set, in emission order:
/// right-hand side owned, then borrowed.
pub open spec fn ops_assign_requests(tp: Seq<char>, d: DescriptorModel) -> Seq<RequestModel> {
    seq![assign_sibling(tp, d, false), assign_sibling(tp, d, true)]
}

/// Builds an operand carrying the given ownership mode.
fn make_operand(src: &Operand, by_ref: bool) -> (r: Operand)
    ensures
        r@ == with_mode(src@, by_ref),
{
    Operand {
        pattern: src.pattern.clone(),
        ty: src.ty.clone(),
        is_subject: src.is_subject,
        is_reference: by_ref,
    }
}

/// Builds the binary sibling of `d` with the given ownership modes.
fn make_binary_sibling(trait_path: &str, d: &FunctionDescriptor, lhs_ref: bool, rhs_ref: bool) -> (r:
    SiblingRequest)
    requires
        d@.operands.len() >= 2,
    ensures
        r@ == binary_sibling(trait_path@, d@, lhs_ref, rhs_ref),
{
    let lhs = make_operand(&d.operands[0], lhs_ref);
    let rhs = make_operand(&d.operands[1], rhs_ref);
    let sibling = FunctionDescriptor {
        name: d.name.clone(),
        generics: clone_strings(&d.generics),
        where_clause: clone_opt_string(&d.where_clause),
        operands: make_operand_pair(lhs, rhs),
        return_type: clone_opt_string(&d.return_type),
        body: d.body.clone(),
        annotations: replay_annotations(&d.annotations),
    };
    let r = SiblingRequest {
        installer: InstallerKind::Binary,
        trait_path: trait_path.to_owned(),
        descriptor: sibling,
    };
    proof {
        assert(r@.descriptor =~= binary_sibling(trait_path@, d@, lhs_ref, rhs_ref).descriptor);
    }
    r
}

/// Builds the unary sibling of `d` with the given subject ownership mode.
fn make_unary_sibling(trait_path: &str, d: &FunctionDescriptor, subject_ref: bool) -> (r:
    SiblingRequest)
    requires
        d@.operands.len() >= 1,
    ensures
        r@ == unary_sibling(trait_path@, d@, subject_ref),
{
    let subject = make_operand(&d.operands[0], subject_ref);
    let sibling = FunctionDescriptor {
        name: d.name.clone(),
        generics: clone_strings(&d.generics),
        where_clause: clone_opt_string(&d.where_clause),
        operands: make_operand_single(subject),
        return_type: clone_opt_string(&d.return_type),
        body: d.body.clone(),
        annotations: replay_annotations(&d.annotations),
    };
    let r = SiblingRequest {
        installer: InstallerKind::Unary,
        trait_path: trait_path.to_owned(),
        descriptor: sibling,
    };
    proof {
        assert(r@.descriptor =~= unary_sibling(trait_path@, d@, subject_ref).descriptor);
    }
    r
}

/// Builds the compound-assignment sibling of `d` with the given right-hand
/// ownership mode.
fn make_assign_sibling(trait_path: &str, d: &FunctionDescriptor, rhs_ref: bool) -> (r:
    SiblingRequest)
    requires
        d@.operands.len() >= 2,
    ensures
        r@ == assign_sibling(trait_path@, d@, rhs_ref),
{
    let subject = d.operands[0].clone();
    let rhs = make_operand(&d.operands[1], rhs_ref);
    let sibling = FunctionDescriptor {
        name: d.name.clone(),
        generics: clone_strings(&d.generics),
        where_clause: clone_opt_string(&d.where_clause),
        operands: make_operand_pair(subject, rhs),
        return_type: None,
        body: d.body.clone(),
        annotations: replay_annotations(&d.annotations),
    };
    let r = SiblingRequest {
        installer: InstallerKind::Assign,
        trait_path: trait_path.to_owned(),
        descriptor: sibling,
    };
    proof {
        assert(r@.descriptor =~= assign_sibling(trait_path@, d@, rhs_ref).descriptor);
    }
    r
}

/// A two-operand list.
fn make_operand_pair(first: Operand, second: Operand) -> (r: Vec<Operand>)
    ensures
        r.deep_view() == seq![first@, second@],
{
    let mut r: Vec<Operand> = Vec::new();
    r.push(first);
    r.push(second);
    proof {
        assert(r.deep_view() =~= seq![r@[0]@, r@[1]@]);
    }
    r
}

/// A one-operand list.
fn make_operand_single(only: Operand) -> (r: Vec<Operand>)
    ensures
        r.deep_view() == seq![only@],
{
    let mut r: Vec<Operand> = Vec::new();
    r.push(only);
    proof {
        assert(r.deep_view() =~= seq![r@[0]@]);
    }
    r
}

/// Fans a permutation-agnostic binary descriptor out into the four ownership
/// permutations, each tagged for the binary installer: subject and right-hand
/// side owned, both borrowed, subject owned with right-hand side borrowed,
/// and subject borrowed with right-hand side owned. Every sibling carries the
/// documentation and the other annotations of the input, in original order,
/// and the canonical body unchanged.
pub fn impl_ops(trait_path: &str, d: &FunctionDescriptor) -> (r: Result<
    Vec<SiblingRequest>,
    ShapeError,
>)
    ensures
        match r {
            Ok(siblings) => {
                &&& binary_shape_error(d@) is None
                &&& siblings@.len() == 4
                &&& siblings.deep_view() == ops_requests(trait_path@, d@)
            },
            Err(e) => binary_shape_error(d@) == Some(e),
        },
{
    if d.operands.len() < 2 {
        return Err(ShapeError::MissingOperands);
    }
    if !d.operands[0].is_subject {
        return Err(ShapeError::MalformedSubject);
    }
    if d.operands[1].is_subject {
        return Err(ShapeError::MalformedRhs);
    }
    if d.return_type.is_none() {
        return Err(ShapeError::MissingReturnType);
    }
    let mut siblings: Vec<SiblingRequest> = Vec::new();
    siblings.push(make_binary_sibling(trait_path, d, false, false));
    siblings.push(make_binary_sibling(trait_path, d, true, true));
    siblings.push(make_binary_sibling(trait_path, d, false, true));
    siblings.push(make_binary_sibling(trait_path, d, true, false));
    proof {
        assert(siblings.deep_view() =~= ops_requests(trait_path@, d@));
    }
    Ok(siblings)
}

/// Fans a binary descriptor out into the right-primitive subset: subject and
/// right-hand side owned, and subject borrowed with right-hand side owned.
/// Meant for a right-hand side that is cheap to copy; nothing checks that it
/// is, the caller chooses this subset. Every sibling carries the split
/// annotations and the canonical body unchanged.
pub fn impl_ops_rprim(trait_path: &str, d: &FunctionDescriptor) -> (r: Result<
    Vec<SiblingRequest>,
    ShapeError,
>)
    ensures
        match r {
            Ok(siblings) => {
                &&& binary_shape_error(d@) is None
                &&& siblings@.len() == 2
                &&& siblings.deep_view() == ops_rprim_requests(trait_path@, d@)
            },
            Err(e) => binary_shape_error(d@) == Some(e),
        },
{
    if d.operands.len() < 2 {
        return Err(ShapeError::MissingOperands);
    }
    if !d.operands[0].is_subject {
        return Err(ShapeError::MalformedSubject);
    }
    if d.operands[1].is_subject {
        return Err(ShapeError::MalformedRhs);
    }
    if d.return_type.is_none() {
        return Err(ShapeError::MissingReturnType);
    }
    let mut siblings: Vec<SiblingRequest> = Vec::new();
    siblings.push(make_binary_sibling(trait_path, d, false, false));
    siblings.push(make_binary_sibling(trait_path, d, true, false));
    proof {
        assert(siblings.deep_view() =~= ops_rprim_requests(trait_path@, d@));
    }
    Ok(siblings)
}

/// Fans a binary descriptor out into the left-primitive subset: subject and
/// right-hand side owned, and subject owned with right-hand side borrowed.
/// The mirror image of [`impl_ops_rprim`], for a subject that is cheap to
/// copy. Every sibling carries the split annotations and the canonical body
/// unchanged.
pub fn impl_ops_lprim(trait_path: &str, d: &FunctionDescriptor) -> (r: Result<
    Vec<SiblingRequest>,
    ShapeError,
>)
    ensures
        match r {
            Ok(siblings) => {
                &&& binary_shape_error(d@) is None
                &&& siblings@.len() == 2
                &&& siblings.deep_view() == ops_lprim_requests(trait_path@, d@)
            },
            Err(e) => binary_shape_error(d@) == Some(e),
        },
{
    if d.operands.len() < 2 {
        return Err(ShapeError::MissingOperands);
    }
    if !d.operands[0].is_subject {
        return Err(ShapeError::MalformedSubject);
    }
    if d.operands[1].is_subject {
        return Err(ShapeError::MalformedRhs);
    }
    if d.return_type.is_none() {
        return Err(ShapeError::MissingReturnType);
    }
    let mut siblings: Vec<SiblingRequest> = Vec::new();
    siblings.push(make_binary_sibling(trait_path, d, false, false));
    siblings.push(make_binary_sibling(trait_path, d, false, true));
    proof {
        assert(siblings.deep_view() =~= ops_lprim_requests(trait_path@, d@));
    }
    Ok(siblings)
}

/// Fans a permutation-agnostic unary descriptor out into its two ownership
/// permutations, each tagged for the unary installer: subject owned, then
/// subject borrowed. Every sibling carries the split annotations and the
/// canonical body unchanged.
pub fn impl_uni_ops(trait_path: &str, d: &FunctionDescriptor) -> (r: Result<
    Vec<SiblingRequest>,
    ShapeError,
>)
    ensures
        match r {
            Ok(siblings) => {
                &&& unary_shape_error(d@) is None
                &&& siblings@.len() == 2
                &&& siblings.deep_view() == uni_ops_requests(trait_path@, d@)
            },
            Err(e) => unary_shape_error(d@) == Some(e),
        },
{
    if d.operands.len() < 1 {
        return Err(ShapeError::MissingOperands);
    }
    if !d.operands[0].is_subject {
        return Err(ShapeError::MalformedSubject);
    }
    if d.return_type.is_none() {
        return Err(ShapeError::MissingReturnType);
    }
    let mut siblings: Vec<SiblingRequest> = Vec::new();
    siblings.push(make_unary_sibling(trait_path, d, false));
    siblings.push(make_unary_sibling(trait_path, d, true));
    proof {
        assert(siblings.deep_view() =~= uni_ops_requests(trait_path@, d@));
    }
    Ok(siblings)
}

/// Fans a permutation-agnostic compound-assignment descriptor out into its
/// two ownership permutations, each tagged for the assignment installer:
/// right-hand side owned, then borrowed. The subject's mode is not varied;
/// the installer binds it by mutable reference in every permutation. Every
/// sibling carries the split annotations and the canonical body unchanged.
pub fn impl_ops_assign(trait_path: &str, d: &FunctionDescriptor) -> (r: Result<
    Vec<SiblingRequest>,
    ShapeError,
>)
    ensures
        match r {
            Ok(siblings) => {
                &&& assign_shape_error(d@) is None
                &&& siblings@.len() == 2
                &&& siblings.deep_view() == ops_assign_requests(trait_path@, d@)
            },
            Err(e) => assign_shape_error(d@) == Some(e),
        },
{
    if d.operands.len() < 2 {
        return Err(ShapeError::MissingOperands);
    }
    if !d.operands[0].is_subject {
        return Err(ShapeError::MalformedSubject);
    }
    if d.operands[1].is_subject {
        return Err(ShapeError::MalformedRhs);
    }
    let mut siblings: Vec<SiblingRequest> = Vec::new();
    siblings.push(make_assign_sibling(trait_path, d, false));
    siblings.push(make_assign_sibling(trait_path, d, true));
    proof {
        assert(siblings.deep_view() =~= ops_assign_requests(trait_path@, d@));
    }
    Ok(siblings)
}

} // verus!
