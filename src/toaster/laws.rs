use vstd::prelude::*;

use crate::toast::{ToastData, ToastId};
use crate::toaster::context::ToasterContext;

verus! {

/// Keeps the toasts whose id is not `id`.
pub open spec fn other_than(id: ToastId) -> spec_fn(ToastData) -> bool {
    |t: ToastData| t.id != id
}

/// Ids strictly increase across successive calls of `toast` (or of a quick
/// method): the second new toast has a larger id than the first, and the first
/// a larger id than every toast already queued.
pub proof fn lemma_ids_increase(
    a: ToasterContext,
    t1: ToastData,
    b: ToasterContext,
    t2: ToastData,
    c: ToasterContext,
)
    requires
        a.wf(),
        ToasterContext::toasted(a, t1, b),
        ToasterContext::toasted(b, t2, c),
    ensures
        t1.id < t2.id,
        forall|i: int| 0 <= i < a.spec_queue().len() ==> #[trigger] a.spec_queue()[i].id < t1.id,
        c.spec_queue().last() == t2,
        c.spec_queue()[c.spec_queue().len() - 2] == t1,
{
}

proof fn lemma_filter_keeps_all(s: Seq<ToastData>, id: ToastId)
    requires
        forall|i: int| 0 <= i < s.len() ==> #[trigger] s[i].id != id,
    ensures
        s.filter(other_than(id)) == s,
    decreases s.len(),
{
    reveal(Seq::filter);
    if s.len() > 0 {
        lemma_filter_keeps_all(s.drop_last(), id);
        assert(s.drop_last().push(s.last()) =~= s);
    }
}

/// `remove(id)` takes out exactly the toast with id `id`: what is left is the
/// queue without the entries of that id, the others in their old order.
pub proof fn lemma_remove_exact(a: ToasterContext, id: ToastId, b: ToasterContext)
    requires
        a.wf(),
        ToasterContext::removed(a, id, b),
    ensures
        b.spec_queue() == a.spec_queue().filter(other_than(id)),
        forall|i: int| 0 <= i < b.spec_queue().len() ==> #[trigger] b.spec_queue()[i].id != id,
{
    let q = a.spec_queue();
    if a.holds_id(id) {
        let i = choose|i: int| 0 <= i < q.len() && q[i].id == id && #[trigger] q.remove(i) == b.spec_queue();
        let pre = q.take(i);
        let mid = q.subrange(i, i + 1);
        let post = q.skip(i + 1);
        assert(q =~= pre + mid + post);
        assert(q.remove(i) =~= pre + post);
        lemma_filter_keeps_all(pre, id);
        lemma_filter_keeps_all(post, id);
        Seq::filter_distributes_over_add(pre + mid, post, other_than(id));
        Seq::filter_distributes_over_add(pre, mid, other_than(id));
        reveal(Seq::filter);
        assert(mid.drop_last() =~= Seq::<ToastData>::empty());
        assert(mid.last().id == id);
        assert(Seq::<ToastData>::empty().filter(other_than(id)) =~= Seq::<ToastData>::empty());
        assert(!other_than(id)(mid.last()));
        assert(mid.filter(other_than(id)) =~= Seq::<ToastData>::empty());
        assert(pre + Seq::<ToastData>::empty() =~= pre);
    } else {
        lemma_filter_keeps_all(q, id);
    }
}

/// `remove` with an id that no queued toast has changes nothing.
pub proof fn lemma_remove_absent_is_noop(a: ToasterContext, id: ToastId, b: ToasterContext)
    requires
        a.wf(),
        !a.holds_id(id),
        ToasterContext::removed(a, id, b),
    ensures
        b.spec_queue() == a.spec_queue(),
        b.spec_visible() == a.spec_visible(),
        b.spec_total() == a.spec_total(),
        b.spec_defaults() == a.spec_defaults(),
{
}

} // verus!
