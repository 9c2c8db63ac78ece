//! The installer stage: turns one fully ownership-resolved descriptor into
//! the contract binding that implements the host language's operator
//! interface for that one permutation. An installer never varies ownership;
//! it installs exactly the combination it is given.

use vstd::prelude::*;

use crate::descriptor::Annotation;
use crate::descriptor::AnnotationModel;
use crate::descriptor::DescriptorModel;
use crate::descriptor::FunctionDescriptor;
use crate::descriptor::Operand;
use crate::descriptor::OperandModel;
use crate::descriptor::ShapeError;
use crate::descriptor::assign_shape_error;
use crate::descriptor::binary_shape_error;
use crate::descriptor::clone_annotations;
use crate::descriptor::clone_opt_string;
use crate::descriptor::clone_strings;
use crate::descriptor::unary_shape_error;

verus! {

/// One generated operator-contract binding: the implementation block that
/// satisfies the named operator interface for one concrete ownership
/// permutation. Generics, constraint clause and annotations are carried
/// through unchanged from the descriptor; the method body is the canonical
/// body, unrewritten.
#[derive(Debug, PartialEq, Eq)]
pub struct ContractBinding {
    /// The operator interface being implemented.
    pub trait_path: String,
    /// The subject's bare type; the binding is installed on it.
    pub target_type: String,
    /// Whether the binding is installed on a reference to the target type
    /// rather than on the type itself.
    pub target_is_ref: bool,
    /// The right-hand operand exactly as the descriptor typed it; absent for
    /// a unary operation.
    pub rhs: Option<Operand>,
    /// The interface's associated result type; absent for an assignment,
    /// which returns nothing.
    pub output_type: Option<String>,
    /// The name of the method that carries the body.
    pub method_name: String,
    /// Whether the method receives the subject by mutable reference, as every
    /// assignment binding does; a binary or unary binding takes it by value.
    pub subject_mut_ref: bool,
    pub generics: Vec<String>,
    pub where_clause: Option<String>,
    pub body: String,
    pub annotations: Vec<Annotation>,
}

/// Mathematical model of a [`ContractBinding`].
#[verifier::ext_equal]
pub struct BindingModel {
    pub trait_path: Seq<char>,
    pub target_type: Seq<char>,
    pub target_is_ref: bool,
    pub rhs: Option<OperandModel>,
    pub output_type: Option<Seq<char>>,
    pub method_name: Seq<char>,
    pub subject_mut_ref: bool,
    pub generics: Seq<Seq<char>>,
    pub where_clause: Option<Seq<char>>,
    pub body: Seq<char>,
    pub annotations: Seq<AnnotationModel>,
}

impl View for ContractBinding {
    type V = BindingModel;

    open spec fn view(&self) -> BindingModel {
        BindingModel {
            trait_path: self.trait_path@,
            target_type: self.target_type@,
            target_is_ref: self.target_is_ref,
            rhs: self.rhs.deep_view(),
            output_type: self.output_type.deep_view(),
            method_name: self.method_name@,
            subject_mut_ref: self.subject_mut_ref,
            generics: self.generics.deep_view(),
            where_clause: self.where_clause.deep_view(),
            body: self.body@,
            annotations: self.annotations.deep_view(),
        }
    }
}

impl DeepView for ContractBinding {
    type V = BindingModel;

    open spec fn deep_view(&self) -> BindingModel {
        self@
    }
}

/// The binding a well-shaped binary descriptor installs: the named interface,
/// parameterized by the right-hand operand's type, on the subject's type (on
/// a reference to it when the subject is borrowed); the associated result
/// type is the descriptor's return type; the method takes the subject by
/// value and the right-hand operand exactly as typed.
pub open spec fn binary_binding(tp: Seq<char>, d: DescriptorModel) -> BindingModel {
    BindingModel {
        trait_path: tp,
        target_type: d.operands[0].ty,
        target_is_ref: d.operands[0].is_reference,
        rhs: Some(d.operands[1]),
        output_type: d.return_type,
        method_name: d.name,
        subject_mut_ref: false,
        generics: d.generics,
        where_clause: d.where_clause,
        body: d.body,
        annotations: d.annotations,
    }
}

/// The binding a well-shaped unary descriptor installs: as the binary one,
/// but the interface takes no parameter and there is no right-hand operand.
pub open spec fn unary_binding(tp: Seq<char>, d: DescriptorModel) -> BindingModel {
    BindingModel {
        trait_path: tp,
        target_type: d.operands[0].ty,
        target_is_ref: d.operands[0].is_reference,
        rhs: None,
        output_type: d.return_type,
        method_name: d.name,
        subject_mut_ref: false,
        generics: d.generics,
        where_clause: d.where_clause,
        body: d.body,
        annotations: d.annotations,
    }
}

/// The binding a well-shaped compound-assignment descriptor installs: the
/// method receives the subject by mutable reference, whatever ownership mode
/// the descriptor wrote for it, and returns nothing, so the binding declares
/// no result type.
pub open spec fn assign_binding(tp: Seq<char>, d: DescriptorModel) -> BindingModel {
    BindingModel {
        trait_path: tp,
        target_type: d.operands[0].ty,
        target_is_ref: d.operands[0].is_reference,
        rhs: Some(d.operands[1]),
        output_type: None,
        method_name: d.name,
        subject_mut_ref: true,
        generics: d.generics,
        where_clause: d.where_clause,
        body: d.body,
        annotations: d.annotations,
    }
}

/// Installs one binary permutation: emits the implementation block for the
/// named interface, parameterized by the right-hand type, on the subject's
/// type, with the associated result type equal to the descriptor's return
/// type and the canonical body as the method body.
pub fn impl_op(trait_path: &str, d: &FunctionDescriptor) -> (r: Result<ContractBinding, ShapeError>)
    ensures
        match r {
            Ok(b) => binary_shape_error(d@) is None && b@ == binary_binding(trait_path@, d@),
            Err(e) => binary_shape_error(d@) == Some(e),
        },
{
    if d.operands.len() < 2 {
        return Err(ShapeError::MissingOperands);
    }
    if !d.operands[0].is_subject {
        return Err(ShapeError::MalformedSubject);
    }
    if d.operands[1].is_subject {
        return Err(ShapeError::MalformedRhs);
    }
    if d.return_type.is_none() {
        return Err(ShapeError::MissingReturnType);
    }
    let b = ContractBinding {
        trait_path: trait_path.to_owned(),
        target_type: d.operands[0].ty.clone(),
        target_is_ref: d.operands[0].is_reference,
        rhs: Some(d.operands[1].clone()),
        output_type: clone_opt_string(&d.return_type),
        method_name: d.name.clone(),
        subject_mut_ref: false,
        generics: clone_strings(&d.generics),
        where_clause: clone_opt_string(&d.where_clause),
        body: d.body.clone(),
        annotations: clone_annotations(&d.annotations),
    };
    proof {
        assert(b@ =~= binary_binding(trait_path@, d@));
    }
    Ok(b)
}

/// Installs one unary permutation: emits the implementation block for the
/// named parameterless interface on the subject's type, with the associated
/// result type equal to the descriptor's return type and the canonical body
/// as the method body.
pub fn impl_uni_op(trait_path: &str, d: &FunctionDescriptor) -> (r: Result<
    ContractBinding,
    ShapeError,
>)
    ensures
        match r {
            Ok(b) => unary_shape_error(d@) is None && b@ == unary_binding(trait_path@, d@),
            Err(e) => unary_shape_error(d@) == Some(e),
        },
{
    if d.operands.len() < 1 {
        return Err(ShapeError::MissingOperands);
    }
    if !d.operands[0].is_subject {
        return Err(ShapeError::MalformedSubject);
    }
    if d.return_type.is_none() {
        return Err(ShapeError::MissingReturnType);
    }
    let b = ContractBinding {
        trait_path: trait_path.to_owned(),
        target_type: d.operands[0].ty.clone(),
        target_is_ref: d.operands[0].is_reference,
        rhs: None,
        output_type: clone_opt_string(&d.return_type),
        method_name: d.name.clone(),
        subject_mut_ref: false,
        generics: clone_strings(&d.generics),
        where_clause: clone_opt_string(&d.where_clause),
        body: d.body.clone(),
        annotations: clone_annotations(&d.annotations),
    };
    proof {
        assert(b@ =~= unary_binding(trait_path@, d@));
    }
    Ok(b)
}

/// Installs one compound-assignment permutation: emits the implementation
/// block for the named interface, parameterized by the right-hand type, on
/// the subject's type. The method always receives the subject by mutable
/// reference — in-place mutation is what an assignment means — and returns
/// nothing, so no result type is declared.
pub fn impl_op_assign(trait_path: &str, d: &FunctionDescriptor) -> (r: Result<
    ContractBinding,
    ShapeError,
>)
    ensures
        match r {
            Ok(b) => {
                &&& assign_shape_error(d@) is None
                &&& b@ == assign_binding(trait_path@, d@)
                &&& b@.subject_mut_ref
            },
            Err(e) => assign_shape_error(d@) == Some(e),
        },
{
    if d.operands.len() < 2 {
        return Err(ShapeError::MissingOperands);
    }
    if !d.operands[0].is_subject {
        return Err(ShapeError::MalformedSubject);
    }
    if d.operands[1].is_subject {
        return Err(ShapeError::MalformedRhs);
    }
    let b = ContractBinding {
        trait_path: trait_path.to_owned(),
        target_type: d.operands[0].ty.clone(),
        target_is_ref: d.operands[0].is_reference,
        rhs: Some(d.operands[1].clone()),
        output_type: None,
        method_name: d.name.clone(),
        subject_mut_ref: true,
        generics: clone_strings(&d.generics),
        where_clause: clone_opt_string(&d.where_clause),
        body: d.body.clone(),
        annotations: clone_annotations(&d.annotations),
    };
    proof {
        assert(b@ =~= assign_binding(trait_path@, d@));
    }
    Ok(b)
}

} // verus!
