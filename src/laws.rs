use vstd::prelude::*;

use crate::store::{apply, lookup, run, Op};

verus! {

/// The script that writes each of `vs` to `chat_id`, in order.
pub open spec fn updates<D>(chat_id: i64, vs: Seq<D>) -> Seq<Op<D>> {
    vs.map_values(|d: D| Op::Update(chat_id, d))
}

/// Updates of one chat apply one at a time: whatever the order in which the
/// values `vs` arrive, each update returns the record that was current just
/// before it (the first one what was stored before, every later one the value
/// of the update before it), and the last value stays stored.
pub proof fn lemma_update_chain<D>(m: Map<i64, D>, chat_id: i64, vs: Seq<D>)
    ensures
        run(m, updates(chat_id, vs)).0.len() == vs.len(),
        vs.len() > 0 ==> run(m, updates(chat_id, vs)).0[0] == lookup(m, chat_id),
        forall|i: int|
            0 <= i < vs.len() - 1 ==> #[trigger] run(m, updates(chat_id, vs)).0[i + 1] == Some(
                vs[i],
            ),
        vs.len() == 0 ==> run(m, updates(chat_id, vs)).1 == m,
        vs.len() > 0 ==> run(m, updates(chat_id, vs)).1 == m.insert(chat_id, vs.last()),
    decreases vs.len(),
{
    if vs.len() > 0 {
        let ops = updates(chat_id, vs);
        let tail = vs.drop_first();
        let m1 = m.insert(chat_id, vs[0]);
        assert(ops.drop_first() =~= updates(chat_id, tail));
        lemma_update_chain(m1, chat_id, tail);
        let rest = run(m1, updates(chat_id, tail));
        assert(run(m, ops).0 == seq![lookup(m, chat_id)].add(rest.0));
        if tail.len() > 0 {
            assert(rest.0[0] == Some(vs[0]));
            assert(tail.last() == vs.last());
            assert(m1.insert(chat_id, tail.last()) =~= m.insert(chat_id, vs.last()));
        }
        assert forall|i: int| 0 <= i < vs.len() - 1 implies #[trigger] run(
            m,
            updates(chat_id, vs),
        ).0[i + 1] == Some(vs[i]) by {
            if i > 0 {
                assert(rest.0[i] == Some(tail[i - 1]));
            }
        }
    }
}

/// Operations on two different chats do not interact: applied in either
/// order, each returns the same record and the records end the same.
pub proof fn lemma_keys_independent<D>(m: Map<i64, D>, a: Op<D>, b: Op<D>)
    requires
        a.key() != b.key(),
    ensures
        apply(m, a).0 == apply(apply(m, b).1, a).0,
        apply(m, b).0 == apply(apply(m, a).1, b).0,
        apply(apply(m, a).1, b).1 == apply(apply(m, b).1, a).1,
{
    assert(apply(apply(m, a).1, b).1 =~= apply(apply(m, b).1, a).1);
}

/// Two updates, then two removals of one chat: the second update returns the
/// first value, the first removal the second value, the last removal nothing.
pub proof fn lemma_update_remove_previous<D>(m: Map<i64, D>, chat_id: i64, v1: D, v2: D)
    ensures
        run(
            m,
            seq![Op::Update(chat_id, v1), Op::Update(chat_id, v2), Op::Remove(chat_id), Op::Remove(chat_id)],
        ).0 == seq![lookup(m, chat_id), Some(v1), Some(v2), None::<D>],
        run(
            m,
            seq![Op::Update(chat_id, v1), Op::Update(chat_id, v2), Op::Remove(chat_id), Op::Remove(chat_id)],
        ).1 == m.remove(chat_id),
{
    let ops = seq![Op::Update(chat_id, v1), Op::Update(chat_id, v2), Op::Remove(chat_id), Op::Remove(chat_id)];
    let m1 = m.insert(chat_id, v1);
    let m2 = m1.insert(chat_id, v2);
    let m3 = m2.remove(chat_id);
    assert(ops.drop_first() =~= seq![Op::Update(chat_id, v2), Op::Remove(chat_id), Op::Remove(chat_id)]);
    assert(ops.drop_first().drop_first() =~= seq![Op::Remove(chat_id), Op::Remove(chat_id)]);
    assert(ops.drop_first().drop_first().drop_first() =~= seq![Op::Remove(chat_id)]);
    assert(seq![Op::Remove(chat_id)].drop_first() =~= Seq::<Op<D>>::empty());
    let empty = run(m3.remove(chat_id), Seq::<Op<D>>::empty());
    assert(empty.0 == Seq::<Option<D>>::empty() && empty.1 == m3.remove(chat_id));
    assert(!m3.contains_key(chat_id));
    let r4 = run(m3, seq![Op::Remove(chat_id)]);
    assert(r4.1 == m3.remove(chat_id));
    assert(r4.0 =~= seq![None::<D>]);
    let r3 = run(m2, seq![Op::Remove(chat_id), Op::Remove(chat_id)]);
    assert(r3.0 =~= seq![Some(v2), None::<D>]);
    let r2 = run(m1, seq![Op::Update(chat_id, v2), Op::Remove(chat_id), Op::Remove(chat_id)]);
    assert(r2.0 =~= seq![Some(v1), Some(v2), None::<D>]);
    assert(run(m, ops).0 =~= seq![lookup(m, chat_id), Some(v1), Some(v2), None::<D>]);
    assert(m3.remove(chat_id) =~= m.remove(chat_id));
}

} // verus!
