//! The annotation splitter: partitions the annotations attached to a
//! descriptor into documentation and the rest, keeping each part in its
//! original order. Every combinator uses it so that generated siblings carry
//! the documentation and replay the unrelated annotations verbatim.

use vstd::prelude::*;

use crate::descriptor::Annotation;
use crate::descriptor::AnnotationModel;

verus! {

/// The documentation annotations of `anns`, in their original order.
pub open spec fn doc_part(anns: Seq<AnnotationModel>) -> Seq<AnnotationModel>
    decreases anns.len(),
{
    if anns.len() == 0 {
        Seq::empty()
    } else if anns.last().is_doc {
        doc_part(anns.drop_last()).push(anns.last())
    } else {
        doc_part(anns.drop_last())
    }
}

/// The non-documentation annotations of `anns`, in their original order.
pub open spec fn other_part(anns: Seq<AnnotationModel>) -> Seq<AnnotationModel>
    decreases anns.len(),
{
    if anns.len() == 0 {
        Seq::empty()
    } else if !anns.last().is_doc {
        other_part(anns.drop_last()).push(anns.last())
    } else {
        other_part(anns.drop_last())
    }
}

/// The annotations as every generated sibling carries them: the documentation
/// first, then the remaining annotations, each part in its original order.
pub open spec fn replayed(anns: Seq<AnnotationModel>) -> Seq<AnnotationModel> {
    doc_part(anns) + other_part(anns)
}

/// Splitting distributes over concatenation.
pub proof fn lemma_split_add(a: Seq<AnnotationModel>, b: Seq<AnnotationModel>)
    ensures
        doc_part(a + b) == doc_part(a) + doc_part(b),
        other_part(a + b) == other_part(a) + other_part(b),
    decreases b.len(),
{
    if b.len() == 0 {
        assert(a + b =~= a);
        assert(doc_part(a) + doc_part(b) =~= doc_part(a));
        assert(other_part(a) + other_part(b) =~= other_part(a));
    } else {
        lemma_split_add(a, b.drop_last());
        assert((a + b).drop_last() =~= a + b.drop_last());
        assert((a + b).last() == b.last());
        if b.last().is_doc {
            assert(doc_part(a) + doc_part(b) =~= (doc_part(a) + doc_part(b.drop_last())).push(
                b.last(),
            ));
            assert(other_part(a) + other_part(b) =~= other_part(a) + other_part(b.drop_last()));
        } else {
            assert(other_part(a) + other_part(b) =~= (other_part(a) + other_part(
                b.drop_last(),
            )).push(b.last()));
            assert(doc_part(a) + doc_part(b) =~= doc_part(a) + doc_part(b.drop_last()));
        }
    }
}

/// Appending one annotation extends exactly one of the two parts.
pub proof fn lemma_split_push(anns: Seq<AnnotationModel>, a: AnnotationModel)
    ensures
        doc_part(anns.push(a)) == if a.is_doc {
            doc_part(anns).push(a)
        } else {
            doc_part(anns)
        },
        other_part(anns.push(a)) == if a.is_doc {
            other_part(anns)
        } else {
            other_part(anns).push(a)
        },
{
    assert(anns.push(a).drop_last() =~= anns);
    assert(anns.push(a).last() == a);
}

/// Every annotation the documentation part holds is documentation, and every
/// annotation the other part holds is not.
pub proof fn lemma_split_parts_tagged(anns: Seq<AnnotationModel>)
    ensures
        forall|i: int| 0 <= i < doc_part(anns).len() ==> doc_part(anns)[i].is_doc,
        forall|i: int| 0 <= i < other_part(anns).len() ==> !other_part(anns)[i].is_doc,
    decreases anns.len(),
{
    if anns.len() > 0 {
        lemma_split_parts_tagged(anns.drop_last());
        let dl = anns.drop_last();
        assert forall|i: int| 0 <= i < doc_part(anns).len() implies doc_part(anns)[i].is_doc by {
            if anns.last().is_doc {
                assert(doc_part(anns) == doc_part(dl).push(anns.last()));
                if i < doc_part(dl).len() {
                    assert(doc_part(anns)[i] == doc_part(dl)[i]);
                } else {
                    assert(doc_part(anns)[i] == anns.last());
                }
            } else {
                assert(doc_part(anns) == doc_part(dl));
            }
        }
        assert forall|i: int| 0 <= i < other_part(anns).len() implies !other_part(
            anns,
        )[i].is_doc by {
            if !anns.last().is_doc {
                assert(other_part(anns) == other_part(dl).push(anns.last()));
                if i < other_part(dl).len() {
                    assert(other_part(anns)[i] == other_part(dl)[i]);
                } else {
                    assert(other_part(anns)[i] == anns.last());
                }
            } else {
                assert(other_part(anns) == other_part(dl));
            }
        }
    }
}

/// On a run of annotations that are all documentation, the splitter keeps
/// everything in the documentation part and leaves the other part empty;
/// symmetrically for a run with no documentation.
pub proof fn lemma_split_homogeneous(anns: Seq<AnnotationModel>)
    ensures
        (forall|i: int| 0 <= i < anns.len() ==> anns[i].is_doc) ==> doc_part(anns) == anns
            && other_part(anns) == Seq::<AnnotationModel>::empty(),
        (forall|i: int| 0 <= i < anns.len() ==> !anns[i].is_doc) ==> other_part(anns) == anns
            && doc_part(anns) == Seq::<AnnotationModel>::empty(),
    decreases anns.len(),
{
    if anns.len() == 0 {
    } else {
        lemma_split_homogeneous(anns.drop_last());
        if forall|i: int| 0 <= i < anns.len() ==> anns[i].is_doc {
            assert(forall|i: int|
                0 <= i < anns.drop_last().len() ==> anns.drop_last()[i].is_doc);
            assert(doc_part(anns) =~= anns.drop_last().push(anns.last()));
            assert(anns.drop_last().push(anns.last()) =~= anns);
        }
        if forall|i: int| 0 <= i < anns.len() ==> !anns[i].is_doc {
            assert(forall|i: int|
                0 <= i < anns.drop_last().len() ==> !anns.drop_last()[i].is_doc);
            assert(other_part(anns) =~= anns.drop_last().push(anns.last()));
            assert(anns.drop_last().push(anns.last()) =~= anns);
        }
    }
}

/// Splitting what a sibling carries gives back exactly the split of the
/// original annotations: replaying loses nothing, invents nothing, and keeps
/// each part's order.
pub proof fn lemma_replay_keeps_split(anns: Seq<AnnotationModel>)
    ensures
        doc_part(replayed(anns)) == doc_part(anns),
        other_part(replayed(anns)) == other_part(anns),
{
    lemma_split_add(doc_part(anns), other_part(anns));
    lemma_split_parts_tagged(anns);
    lemma_split_homogeneous(doc_part(anns));
    lemma_split_homogeneous(other_part(anns));
    assert(doc_part(anns) + Seq::<AnnotationModel>::empty() =~= doc_part(anns));
    assert(Seq::<AnnotationModel>::empty() + other_part(anns) =~= other_part(anns));
}

/// Partitions attached annotations into documentation and the rest, each in
/// its original order.
pub fn extract_comments(attrs: &Vec<Annotation>) -> (r: (Vec<Annotation>, Vec<Annotation>))
    ensures
        r.0.deep_view() == doc_part(attrs.deep_view()),
        r.1.deep_view() == other_part(attrs.deep_view()),
{
    let mut comments: Vec<Annotation> = Vec::new();
    let mut others: Vec<Annotation> = Vec::new();
    let mut i: usize = 0;
    while i < attrs.len()
        invariant
            i <= attrs.len(),
            comments.deep_view() == doc_part(attrs.deep_view().take(i as int)),
            others.deep_view() == other_part(attrs.deep_view().take(i as int)),
        decreases attrs.len() - i,
    {
        let ghost pre_comments = comments.deep_view();
        let ghost pre_others = others.deep_view();
        let attr = &attrs[i];
        if attr.is_doc {
            comments.push(attr.clone());
        } else {
            others.push(attr.clone());
        }
        proof {
            let s = attrs.deep_view();
            assert(s.take(i + 1) =~= s.take(i as int).push(s[i as int]));
            lemma_split_push(s.take(i as int), s[i as int]);
            if attr.is_doc {
                assert(comments.deep_view() =~= pre_comments.push(s[i as int]));
            } else {
                assert(others.deep_view() =~= pre_others.push(s[i as int]));
            }
        }
        i = i + 1;
    }
    proof {
        assert(attrs.deep_view().take(attrs.len() as int) =~= attrs.deep_view());
    }
    (comments, others)
}

/// The annotation list that every generated sibling carries: the
/// documentation first, then the remaining annotations, each part in its
/// original order.
pub fn replay_annotations(attrs: &Vec<Annotation>) -> (r: Vec<Annotation>)
    ensures
        r.deep_view() == replayed(attrs.deep_view()),
{
    let (mut comments, others) = extract_comments(attrs);
    let mut i: usize = 0;
    while i < others.len()
        invariant
            i <= others.len(),
            comments.deep_view() == doc_part(attrs.deep_view()) + others.deep_view().take(i as int),
            others.deep_view() == other_part(attrs.deep_view()),
        decreases others.len() - i,
    {
        let ghost pre = comments.deep_view();
        let elem = others[i].clone();
        comments.push(elem);
        proof {
            let d = doc_part(attrs.deep_view());
            let o = others.deep_view();
            assert(comments.deep_view() =~= pre.push(o[i as int]));
            assert(d + o.take(i + 1) =~= (d + o.take(i as int)).push(o[i as int]));
        }
        i = i + 1;
    }
    proof {
        let d = doc_part(attrs.deep_view());
        let o = other_part(attrs.deep_view());
        assert(o.take(o.len() as int) =~= o);
        assert(comments.deep_view() =~= d + o);
    }
    comments
}

} // verus!
