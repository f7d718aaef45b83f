//! Small facts about deep views of vectors, shared by the pipeline stages.

use vstd::prelude::*;

verus! {

/// Pushing an element onto a vector pushes its view onto the deep view.
pub proof fn lemma_deep_view_push<T: DeepView>(v1: Vec<T>, x: T, v2: Vec<T>)
    requires
        v2@ == v1@.push(x),
    ensures
        v2.deep_view() == v1.deep_view().push(x.deep_view()),
{
    assert(v2.deep_view() =~= v1.deep_view().push(x.deep_view()));
}

/// Concatenating two vectors concatenates their deep views.
pub proof fn lemma_deep_view_concat<T: DeepView>(a: Vec<T>, b: Vec<T>, c: Vec<T>)
    requires
        c@ == a@ + b@,
    ensures
        c.deep_view() == a.deep_view() + b.deep_view(),
{
    assert(c.deep_view() =~= a.deep_view() + b.deep_view());
}

} // verus!
