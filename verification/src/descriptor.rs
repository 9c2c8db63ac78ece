//! The descriptor model: the in-memory form of one annotated function that
//! the generator consumes, together with its mathematical model and the shape
//! checks that every stage performs on it.

use vstd::prelude::*;

verus! {

/// One annotation attached to the canonical function: either a documentation
/// annotation or an opaque non-documentation annotation. The generator never
/// interprets the text; it only copies it.
#[derive(Debug, PartialEq, Eq)]
pub struct Annotation {
    pub is_doc: bool,
    pub text: String,
}

/// Mathematical model of an [`Annotation`].
#[verifier::ext_equal]
pub struct AnnotationModel {
    pub is_doc: bool,
    pub text: Seq<char>,
}

impl View for Annotation {
    type V = AnnotationModel;

    open spec fn view(&self) -> AnnotationModel {
        AnnotationModel { is_doc: self.is_doc, text: self.text@ }
    }
}

impl DeepView for Annotation {
    type V = AnnotationModel;

    open spec fn deep_view(&self) -> AnnotationModel {
        self@
    }
}

impl Clone for Annotation {
    fn clone(&self) -> (res: Self)
        ensures
            res == *self,
    {
        Annotation { is_doc: self.is_doc, text: self.text.clone() }
    }
}

/// One function parameter: its pattern, its bare type, whether it is the
/// distinguished subject (the operand the operation is installed on), and
/// whether it is taken by reference.
#[derive(Debug, PartialEq, Eq)]
pub struct Operand {
    pub pattern: String,
    pub ty: String,
    pub is_subject: bool,
    pub is_reference: bool,
}

/// Mathematical model of an [`Operand`].
#[verifier::ext_equal]
pub struct OperandModel {
    pub pattern: Seq<char>,
    pub ty: Seq<char>,
    pub is_subject: bool,
    pub is_reference: bool,
}

impl View for Operand {
    type V = OperandModel;

    open spec fn view(&self) -> OperandModel {
        OperandModel {
            pattern: self.pattern@,
            ty: self.ty@,
            is_subject: self.is_subject,
            is_reference: self.is_reference,
        }
    }
}

impl DeepView for Operand {
    type V = OperandModel;

    open spec fn deep_view(&self) -> OperandModel {
        self@
    }
}

impl Clone for Operand {
    fn clone(&self) -> (res: Self)
        ensures
            res == *self,
    {
        Operand {
            pattern: self.pattern.clone(),
            ty: self.ty.clone(),
            is_subject: self.is_subject,
            is_reference: self.is_reference,
        }
    }
}

/// One annotated function as the generator sees it: operation name, generic
/// parameters, optional constraint clause, ordered operands, optional return
/// type, the canonical body, and the attached annotations.
///
/// A descriptor is never mutated; every stage builds new descriptors.
#[derive(Debug, PartialEq, Eq)]
pub struct FunctionDescriptor {
    pub name: String,
    pub generics: Vec<String>,
    pub where_clause: Option<String>,
    pub operands: Vec<Operand>,
    pub return_type: Option<String>,
    pub body: String,
    pub annotations: Vec<Annotation>,
}

/// Mathematical model of a [`FunctionDescriptor`].
#[verifier::ext_equal]
pub struct DescriptorModel {
    pub name: Seq<char>,
    pub generics: Seq<Seq<char>>,
    pub where_clause: Option<Seq<char>>,
    pub operands: Seq<OperandModel>,
    pub return_type: Option<Seq<char>>,
    pub body: Seq<char>,
    pub annotations: Seq<AnnotationModel>,
}

impl View for FunctionDescriptor {
    type V = DescriptorModel;

    open spec fn view(&self) -> DescriptorModel {
        DescriptorModel {
            name: self.name@,
            generics: self.generics.deep_view(),
            where_clause: self.where_clause.deep_view(),
            operands: self.operands.deep_view(),
            return_type: self.return_type.deep_view(),
            body: self.body@,
            annotations: self.annotations.deep_view(),
        }
    }
}

impl DeepView for FunctionDescriptor {
    type V = DescriptorModel;

    open spec fn deep_view(&self) -> DescriptorModel {
        self@
    }
}

/// Copies a list of generic-parameter texts.
pub(crate) fn clone_strings(v: &Vec<String>) -> (r: Vec<String>)
    ensures
        r.deep_view() == v.deep_view(),
{
    let mut r: Vec<String> = Vec::new();
    let mut i: usize = 0;
    while i < v.len()
        invariant
            i <= v.len(),
            r.deep_view() == v.deep_view().take(i as int),
        decreases v.len() - i,
    {
        let ghost pre = r.deep_view();
        let elem = v[i].clone();
        r.push(elem);
        proof {
            assert forall|j: int| 0 <= j < pre.len() + 1 implies r.deep_view()[j] == v.deep_view().take(
                i + 1,
            )[j] by {
                if j < pre.len() {
                    assert(r.deep_view()[j] == pre[j]);
                } else {
                    assert(r.deep_view()[j] == v.deep_view()[i as int]);
                }
            }
            assert(r.deep_view() =~= v.deep_view().take(i + 1));
        }
        i = i + 1;
    }
    proof {
        assert(r.deep_view() =~= v.deep_view());
    }
    r
}

/// Copies a list of annotations.
pub(crate) fn clone_annotations(v: &Vec<Annotation>) -> (r: Vec<Annotation>)
    ensures
        r.deep_view() == v.deep_view(),
{
    let mut r: Vec<Annotation> = Vec::new();
    let mut i: usize = 0;
    while i < v.len()
        invariant
            i <= v.len(),
            r.deep_view() == v.deep_view().take(i as int),
        decreases v.len() - i,
    {
        let ghost pre = r.deep_view();
        let elem = v[i].clone();
        r.push(elem);
        proof {
            assert forall|j: int| 0 <= j < pre.len() + 1 implies r.deep_view()[j] == v.deep_view().take(
                i + 1,
            )[j] by {
                if j < pre.len() {
                    assert(r.deep_view()[j] == pre[j]);
                } else {
                    assert(r.deep_view()[j] == v.deep_view()[i as int]);
                }
            }
            assert(r.deep_view() =~= v.deep_view().take(i + 1));
        }
        i = i + 1;
    }
    proof {
        assert(r.deep_view() =~= v.deep_view());
    }
    r
}

/// Copies an optional text, such as a return type or a constraint clause.
pub(crate) fn clone_opt_string(v: &Option<String>) -> (r: Option<String>)
    ensures
        r.deep_view() == v.deep_view(),
{
    match v {
        Some(s) => Some(s.clone()),
        None => None,
    }
}

impl Clone for FunctionDescriptor {
    fn clone(&self) -> (res: Self)
        ensures
            res@ == self@,
    {
        FunctionDescriptor {
            name: self.name.clone(),
            generics: clone_strings(&self.generics),
            where_clause: clone_opt_string(&self.where_clause),
            operands: clone_operands(&self.operands),
            return_type: clone_opt_string(&self.return_type),
            body: self.body.clone(),
            annotations: clone_annotations(&self.annotations),
        }
    }
}

/// Copies a list of operands.
pub(crate) fn clone_operands(v: &Vec<Operand>) -> (r: Vec<Operand>)
    ensures
        r.deep_view() == v.deep_view(),
{
    let mut r: Vec<Operand> = Vec::new();
    let mut i: usize = 0;
    while i < v.len()
        invariant
            i <= v.len(),
            r.deep_view() == v.deep_view().take(i as int),
        decreases v.len() - i,
    {
        let ghost pre = r.deep_view();
        let elem = v[i].clone();
        r.push(elem);
        proof {
            assert forall|j: int| 0 <= j < pre.len() + 1 implies r.deep_view()[j] == v.deep_view().take(
                i + 1,
            )[j] by {
                if j < pre.len() {
                    assert(r.deep_view()[j] == pre[j]);
                } else {
                    assert(r.deep_view()[j] == v.deep_view()[i as int]);
                }
            }
            assert(r.deep_view() =~= v.deep_view().take(i + 1));
        }
        i = i + 1;
    }
    proof {
        assert(r.deep_view() =~= v.deep_view());
    }
    r
}

/// The fatal, user-facing shape faults: a descriptor that cannot drive the
/// requested stage. Expansion for that one invocation is abandoned.
#[derive(Clone, Copy, Debug, PartialEq, Eq, Structural)]
pub enum ShapeError {
    /// The operand list is shorter than the operation's arity.
    MissingOperands,
    /// The first operand is not recognizable as the distinguished subject.
    MalformedSubject,
    /// The second operand is itself marked as a subject.
    MalformedRhs,
    /// The operation needs a return type and the descriptor has none.
    MissingReturnType,
}

/// The shape fault, if any, of a descriptor offered to a binary stage:
/// two operands, the first the subject, the second not, and a return type.
pub open spec fn binary_shape_error(d: DescriptorModel) -> Option<ShapeError> {
    if d.operands.len() < 2 {
        Some(ShapeError::MissingOperands)
    } else if !d.operands[0].is_subject {
        Some(ShapeError::MalformedSubject)
    } else if d.operands[1].is_subject {
        Some(ShapeError::MalformedRhs)
    } else if d.return_type.is_none() {
        Some(ShapeError::MissingReturnType)
    } else {
        None
    }
}

/// The shape fault, if any, of a descriptor offered to a unary stage:
/// one operand, the subject, and a return type.
pub open spec fn unary_shape_error(d: DescriptorModel) -> Option<ShapeError> {
    if d.operands.len() < 1 {
        Some(ShapeError::MissingOperands)
    } else if !d.operands[0].is_subject {
        Some(ShapeError::MalformedSubject)
    } else if d.return_type.is_none() {
        Some(ShapeError::MissingReturnType)
    } else {
        None
    }
}

/// The shape fault, if any, of a descriptor offered to a compound-assignment
/// stage: two operands, the first the subject, the second not. An assignment
/// returns nothing, so no return type is demanded.
pub open spec fn assign_shape_error(d: DescriptorModel) -> Option<ShapeError> {
    if d.operands.len() < 2 {
        Some(ShapeError::MissingOperands)
    } else if !d.operands[0].is_subject {
        Some(ShapeError::MalformedSubject)
    } else if d.operands[1].is_subject {
        Some(ShapeError::MalformedRhs)
    } else {
        None
    }
}

impl ShapeError {
    /// The diagnostic text reported to the user for this fault.
    pub fn describe(&self) -> (m: &'static str)
        ensures
            m@ == spec_describe(*self),
    {
        match self {
            ShapeError::MissingOperands => "Function definition has fewer operands than the operation requires.",
            ShapeError::MalformedSubject => "First argument must be the subject of the operation.",
            ShapeError::MalformedRhs => "Second argument must be a plain typed operand.",
            ShapeError::MissingReturnType => "Function must contain a return type.",
        }
    }
}

/// The diagnostic text for each shape fault.
pub open spec fn spec_describe(e: ShapeError) -> Seq<char> {
    match e {
        ShapeError::MissingOperands => "Function definition has fewer operands than the operation requires."@,
        ShapeError::MalformedSubject => "First argument must be the subject of the operation."@,
        ShapeError::MalformedRhs => "Second argument must be a plain typed operand."@,
        ShapeError::MissingReturnType => "Function must contain a return type."@,
    }
}

} // verus!
