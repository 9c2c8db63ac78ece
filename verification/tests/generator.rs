use opimps::Annotation;
use opimps::FunctionDescriptor;
use opimps::InstallerKind;
use opimps::Operand;
use opimps::ShapeError;
use opimps::extract_comments;
use opimps::impl_op;
use opimps::impl_op_assign;
use opimps::impl_ops;
use opimps::impl_ops_assign;
use opimps::impl_ops_lprim;
use opimps::impl_ops_rprim;
use opimps::impl_uni_op;
use opimps::impl_uni_ops;

fn ann(is_doc: bool, text: &str) -> Annotation {
    Annotation { is_doc, text: text.to_string() }
}

fn op(pattern: &str, ty: &str, is_subject: bool, is_reference: bool) -> Operand {
    Operand {
        pattern: pattern.to_string(),
        ty: ty.to_string(),
        is_subject,
        is_reference,
    }
}

fn binary_desc() -> FunctionDescriptor {
    FunctionDescriptor {
        name: "mul".to_string(),
        generics: vec![],
        where_clause: None,
        operands: vec![op("self", "TestObj", true, false), op("rhs", "TestObj", false, false)],
        return_type: Some("i32".to_string()),
        body: "return self.val * rhs.val;".to_string(),
        annotations: vec![
            ann(true, "/// Multiplies two objects."),
            ann(false, "#[inline]"),
            ann(true, "/// Field by field."),
            ann(false, "#[must_use]"),
        ],
    }
}

fn unary_desc() -> FunctionDescriptor {
    FunctionDescriptor {
        name: "not".to_string(),
        generics: vec![],
        where_clause: None,
        operands: vec![op("self", "A", true, false)],
        return_type: Some("A".to_string()),
        body: "return A { val: !self.val };".to_string(),
        annotations: vec![ann(true, "/// Negates."), ann(false, "#[inline]")],
    }
}

fn assign_desc() -> FunctionDescriptor {
    FunctionDescriptor {
        name: "mul_assign".to_string(),
        generics: vec![],
        where_clause: None,
        operands: vec![op("self", "TestObj", true, false), op("rhs", "TestObj", false, false)],
        return_type: None,
        body: "self.val *= rhs.val;".to_string(),
        annotations: vec![ann(true, "/// Multiplies in place."), ann(false, "#[inline]")],
    }
}

fn modes_of(siblings: &[opimps::SiblingRequest]) -> Vec<Vec<bool>> {
    siblings
        .iter()
        .map(|s| s.descriptor.operands.iter().map(|o| o.is_reference).collect())
        .collect()
}

#[test]
fn emits_four_binary_siblings() {
    let d = binary_desc();
    let siblings = impl_ops("std::ops::Mul", &d).unwrap();
    assert_eq!(4, siblings.len());
    for s in &siblings {
        assert_eq!(InstallerKind::Binary, s.installer);
        assert_eq!("std::ops::Mul", s.trait_path);
        assert_eq!(2, s.descriptor.operands.len());
        assert_eq!("mul", s.descriptor.name);
        assert_eq!(Some("i32".to_string()), s.descriptor.return_type);
        assert!(s.descriptor.operands[0].is_subject);
        assert!(!s.descriptor.operands[1].is_subject);
        assert_eq!("TestObj", s.descriptor.operands[0].ty);
        assert_eq!("TestObj", s.descriptor.operands[1].ty);
    }
    let expected: Vec<Vec<bool>> = vec![
        vec![false, false],
        vec![true, true],
        vec![false, true],
        vec![true, false],
    ];
    assert_eq!(expected, modes_of(&siblings));
}

#[test]
fn emits_two_unary_siblings() {
    let d = unary_desc();
    let siblings = impl_uni_ops("core::ops::Not", &d).unwrap();
    assert_eq!(2, siblings.len());
    for s in &siblings {
        assert_eq!(InstallerKind::Unary, s.installer);
        assert_eq!(1, s.descriptor.operands.len());
        assert!(s.descriptor.operands[0].is_subject);
    }
    let expected: Vec<Vec<bool>> = vec![vec![false], vec![true]];
    assert_eq!(expected, modes_of(&siblings));
}

#[test]
fn emits_two_assign_siblings() {
    let d = assign_desc();
    let siblings = impl_ops_assign("std::ops::MulAssign", &d).unwrap();
    assert_eq!(2, siblings.len());
    for s in &siblings {
        assert_eq!(InstallerKind::Assign, s.installer);
        assert_eq!(None, s.descriptor.return_type);
        assert!(!s.descriptor.operands[0].is_reference);
    }
    let expected: Vec<Vec<bool>> = vec![vec![false, false], vec![false, true]];
    assert_eq!(expected, modes_of(&siblings));
}

fn doc_texts(anns: &[Annotation]) -> Vec<String> {
    anns.iter().filter(|a| a.is_doc).map(|a| a.text.clone()).collect()
}

fn other_texts(anns: &[Annotation]) -> Vec<String> {
    anns.iter().filter(|a| !a.is_doc).map(|a| a.text.clone()).collect()
}

#[test]
fn docs_replay_on_every_sibling() {
    let d = binary_desc();
    let expected = doc_texts(&d.annotations);
    let all = vec![
        impl_ops("Mul", &d).unwrap(),
        impl_ops_rprim("Mul", &d).unwrap(),
        impl_ops_lprim("Mul", &d).unwrap(),
        impl_ops_assign("MulAssign", &assign_desc_with(d.annotations.clone())).unwrap(),
        impl_uni_ops("Not", &unary_desc_with(d.annotations.clone())).unwrap(),
    ];
    for siblings in &all {
        for s in siblings {
            assert_eq!(expected, doc_texts(&s.descriptor.annotations));
        }
    }
}

fn assign_desc_with(annotations: Vec<Annotation>) -> FunctionDescriptor {
    let mut d = assign_desc();
    d.annotations = annotations;
    d
}

fn unary_desc_with(annotations: Vec<Annotation>) -> FunctionDescriptor {
    let mut d = unary_desc();
    d.annotations = annotations;
    d
}

#[test]
fn other_annotations_replay_on_every_sibling() {
    let d = binary_desc();
    let expected = other_texts(&d.annotations);
    let all = vec![
        impl_ops("Mul", &d).unwrap(),
        impl_ops_rprim("Mul", &d).unwrap(),
        impl_ops_lprim("Mul", &d).unwrap(),
        impl_ops_assign("MulAssign", &assign_desc_with(d.annotations.clone())).unwrap(),
        impl_uni_ops("Not", &unary_desc_with(d.annotations.clone())).unwrap(),
    ];
    for siblings in &all {
        for s in siblings {
            assert_eq!(expected, other_texts(&s.descriptor.annotations));
        }
    }
}

#[test]
fn body_identical_across_siblings() {
    let d = binary_desc();
    for s in &impl_ops("Mul", &d).unwrap() {
        assert_eq!(d.body, s.descriptor.body);
    }
    let u = unary_desc();
    for s in &impl_uni_ops("Not", &u).unwrap() {
        assert_eq!(u.body, s.descriptor.body);
    }
    let a = assign_desc();
    for s in &impl_ops_assign("MulAssign", &a).unwrap() {
        assert_eq!(a.body, s.descriptor.body);
    }
}

#[test]
fn rerun_yields_identical_siblings() {
    let d = binary_desc();
    assert_eq!(impl_ops("Mul", &d).unwrap(), impl_ops("Mul", &d).unwrap());
    assert_eq!(
        impl_ops_rprim("Mul", &d).unwrap(),
        impl_ops_rprim("Mul", &d).unwrap()
    );
    let u = unary_desc();
    assert_eq!(impl_uni_ops("Not", &u).unwrap(), impl_uni_ops("Not", &u).unwrap());
    let a = assign_desc();
    assert_eq!(
        impl_ops_assign("MulAssign", &a).unwrap(),
        impl_ops_assign("MulAssign", &a).unwrap()
    );
    let b1 = impl_op("Mul", &d).unwrap();
    let b2 = impl_op("Mul", &d).unwrap();
    assert_eq!(b1, b2);
}

#[test]
fn assign_installer_always_mut_subject() {
    let owned = assign_desc();
    let b = impl_op_assign("std::ops::MulAssign", &owned).unwrap();
    assert!(b.subject_mut_ref);
    assert_eq!(None, b.output_type);

    let mut borrowed = assign_desc();
    borrowed.operands[0].is_reference = true;
    let b = impl_op_assign("std::ops::MulAssign", &borrowed).unwrap();
    assert!(b.subject_mut_ref);
}

#[test]
fn rprim_omits_borrowed_rhs() {
    let mut d = binary_desc();
    d.operands[1] = op("rhs", "i32", false, false);
    let siblings = impl_ops_rprim("Mul", &d).unwrap();
    assert_eq!(2, siblings.len());
    let expected: Vec<Vec<bool>> = vec![vec![false, false], vec![true, false]];
    assert_eq!(expected, modes_of(&siblings));
    for s in &siblings {
        assert!(!s.descriptor.operands[1].is_reference);
    }
}

#[test]
fn lprim_omits_borrowed_subject() {
    let mut d = binary_desc();
    d.operands[0] = op("self", "i32", true, false);
    let siblings = impl_ops_lprim("Mul", &d).unwrap();
    assert_eq!(2, siblings.len());
    let expected: Vec<Vec<bool>> = vec![vec![false, false], vec![false, true]];
    assert_eq!(expected, modes_of(&siblings));
    for s in &siblings {
        assert!(!s.descriptor.operands[0].is_reference);
    }
}

#[test]
fn splitter_partitions_in_order() {
    let attrs = vec![
        ann(false, "#[inline]"),
        ann(true, "/// First."),
        ann(false, "#[must_use]"),
        ann(true, "/// Second."),
    ];
    let (docs, others) = extract_comments(&attrs);
    assert_eq!(
        vec!["/// First.".to_string(), "/// Second.".to_string()],
        docs.iter().map(|a| a.text.clone()).collect::<Vec<String>>()
    );
    assert_eq!(
        vec!["#[inline]".to_string(), "#[must_use]".to_string()],
        others.iter().map(|a| a.text.clone()).collect::<Vec<String>>()
    );
    assert!(docs.iter().all(|a| a.is_doc));
    assert!(others.iter().all(|a| !a.is_doc));
}

#[test]
fn binary_installer_binding_fields() {
    let mut d = binary_desc();
    d.generics = vec!["T".to_string()];
    d.where_clause = Some("where T: Copy".to_string());
    d.operands[0].is_reference = true;
    d.operands[1] = op("rhs", "TestObj", false, true);
    let b = impl_op("std::ops::Mul", &d).unwrap();
    assert_eq!("std::ops::Mul", b.trait_path);
    assert_eq!("TestObj", b.target_type);
    assert!(b.target_is_ref);
    let rhs = b.rhs.unwrap();
    assert_eq!("rhs", rhs.pattern);
    assert_eq!("TestObj", rhs.ty);
    assert!(rhs.is_reference);
    assert_eq!(Some("i32".to_string()), b.output_type);
    assert_eq!("mul", b.method_name);
    assert!(!b.subject_mut_ref);
    assert_eq!(vec!["T".to_string()], b.generics);
    assert_eq!(Some("where T: Copy".to_string()), b.where_clause);
    assert_eq!(d.body, b.body);
    // The installer replays the attached annotations verbatim, unsplit.
    assert_eq!(d.annotations, b.annotations);
}

#[test]
fn unary_installer_binding_fields() {
    let d = unary_desc();
    let b = impl_uni_op("core::ops::Not", &d).unwrap();
    assert_eq!("core::ops::Not", b.trait_path);
    assert_eq!("A", b.target_type);
    assert!(!b.target_is_ref);
    assert_eq!(None, b.rhs);
    assert_eq!(Some("A".to_string()), b.output_type);
    assert_eq!("not", b.method_name);
    assert!(!b.subject_mut_ref);
    assert_eq!(d.annotations, b.annotations);
}

#[test]
fn binary_shape_errors() {
    let mut d = binary_desc();
    d.operands.pop();
    assert_eq!(Err(ShapeError::MissingOperands), impl_ops("Mul", &d));
    assert_eq!(Err(ShapeError::MissingOperands), impl_op("Mul", &d));

    let mut d = binary_desc();
    d.operands[0].is_subject = false;
    assert_eq!(Err(ShapeError::MalformedSubject), impl_ops("Mul", &d));
    assert_eq!(Err(ShapeError::MalformedSubject), impl_ops_rprim("Mul", &d));
    assert_eq!(Err(ShapeError::MalformedSubject), impl_ops_lprim("Mul", &d));
    assert_eq!(Err(ShapeError::MalformedSubject), impl_op("Mul", &d));

    let mut d = binary_desc();
    d.operands[1].is_subject = true;
    assert_eq!(Err(ShapeError::MalformedRhs), impl_ops("Mul", &d));
    assert_eq!(Err(ShapeError::MalformedRhs), impl_op("Mul", &d));

    let mut d = binary_desc();
    d.return_type = None;
    assert_eq!(Err(ShapeError::MissingReturnType), impl_ops("Mul", &d));
    assert_eq!(Err(ShapeError::MissingReturnType), impl_ops_rprim("Mul", &d));
    assert_eq!(Err(ShapeError::MissingReturnType), impl_ops_lprim("Mul", &d));
    assert_eq!(Err(ShapeError::MissingReturnType), impl_op("Mul", &d));
}

#[test]
fn unary_shape_errors() {
    let mut d = unary_desc();
    d.operands.clear();
    assert_eq!(Err(ShapeError::MissingOperands), impl_uni_ops("Not", &d));
    assert_eq!(Err(ShapeError::MissingOperands), impl_uni_op("Not", &d));

    let mut d = unary_desc();
    d.operands[0].is_subject = false;
    assert_eq!(Err(ShapeError::MalformedSubject), impl_uni_ops("Not", &d));
    assert_eq!(Err(ShapeError::MalformedSubject), impl_uni_op("Not", &d));

    let mut d = unary_desc();
    d.return_type = None;
    assert_eq!(Err(ShapeError::MissingReturnType), impl_uni_ops("Not", &d));
    assert_eq!(Err(ShapeError::MissingReturnType), impl_uni_op("Not", &d));
}

#[test]
fn assign_needs_no_return_type() {
    let d = assign_desc();
    assert_eq!(None, d.return_type);
    assert!(impl_ops_assign("MulAssign", &d).is_ok());
    assert!(impl_op_assign("MulAssign", &d).is_ok());

    let mut d = assign_desc();
    d.operands.pop();
    assert_eq!(Err(ShapeError::MissingOperands), impl_ops_assign("MulAssign", &d));
    assert_eq!(Err(ShapeError::MissingOperands), impl_op_assign("MulAssign", &d));

    let mut d = assign_desc();
    d.operands[1].is_subject = true;
    assert_eq!(Err(ShapeError::MalformedRhs), impl_ops_assign("MulAssign", &d));
    assert_eq!(Err(ShapeError::MalformedRhs), impl_op_assign("MulAssign", &d));
}

#[test]
fn shape_error_descriptions() {
    assert_eq!(
        "Function must contain a return type.",
        ShapeError::MissingReturnType.describe()
    );
    assert_eq!(
        "Function definition has fewer operands than the operation requires.",
        ShapeError::MissingOperands.describe()
    );
}

#[test]
fn extra_operands_are_ignored() {
    let mut d = binary_desc();
    d.operands.push(op("extra", "u8", false, false));
    let siblings = impl_ops("Mul", &d).unwrap();
    for s in &siblings {
        assert_eq!(2, s.descriptor.operands.len());
    }
}
