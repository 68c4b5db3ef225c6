use vstd::prelude::*;

verus! {

/// The record stored for `chat_id` in `m`, or `None` when there is none.
pub open spec fn lookup<D>(m: Map<i64, D>, chat_id: i64) -> Option<D> {
    if m.contains_key(chat_id) {
        Some(m[chat_id])
    } else {
        None
    }
}

/// One storage operation of a script.
pub enum Op<D> {
    Update(i64, D),
    Remove(i64),
}

impl<D> Op<D> {
    /// The chat that the operation touches.
    pub open spec fn key(self) -> i64 {
        match self {
            Op::Update(k, _) => k,
            Op::Remove(k) => k,
        }
    }
}

/// What one operation returns (the previous record) and the records after it.
pub open spec fn apply<D>(m: Map<i64, D>, op: Op<D>) -> (Option<D>, Map<i64, D>) {
    match op {
        Op::Update(k, d) => (lookup(m, k), m.insert(k, d)),
        Op::Remove(k) => (lookup(m, k), m.remove(k)),
    }
}

/// What a script returns, operation by operation, and the records after it,
/// when its operations are applied one after the other.
pub open spec fn run<D>(m: Map<i64, D>, ops: Seq<Op<D>>) -> (Seq<Option<D>>, Map<i64, D>)
    decreases ops.len(),
{
    if ops.len() == 0 {
        (Seq::empty(), m)
    } else {
        let first = apply(m, ops[0]);
        let rest = run(first.1, ops.drop_first());
        (seq![first.0].add(rest.0), rest.1)
    }
}

/// What an operation returns when `refusal` is the store's refusal and
/// `prev` the record it held before: the refusal's error, or that record.
pub open spec fn outcome<D, E>(refusal: Option<E>, prev: Option<D>) -> Result<Option<D>, E> {
    match refusal {
        Some(e) => Err(e),
        None => Ok(prev),
    }
}

/// What a script returns and leaves when it runs on `m` one operation after
/// another, with the operation appended last applied after all the others.
pub proof fn lemma_run_push<D>(m: Map<i64, D>, ops: Seq<Op<D>>, op: Op<D>)
    ensures
        run(m, ops.push(op)).0 == run(m, ops).0.push(apply(run(m, ops).1, op).0),
        run(m, ops.push(op)).1 == apply(run(m, ops).1, op).1,
    decreases ops.len(),
{
    if ops.len() == 0 {
        let first = apply(m, op);
        assert(ops.push(op).drop_first() =~= Seq::<Op<D>>::empty());
        assert(ops.push(op)[0] == op);
        assert(run(first.1, Seq::<Op<D>>::empty()) == (Seq::<Option<D>>::empty(), first.1));
        assert(run(m, ops) == (Seq::<Option<D>>::empty(), m));
        assert(run(m, ops.push(op)).0 =~= run(m, ops).0.push(apply(run(m, ops).1, op).0));
    } else {
        let first = apply(m, ops[0]);
        assert(ops.push(op).drop_first() =~= ops.drop_first().push(op));
        lemma_run_push(first.1, ops.drop_first(), op);
        assert(run(m, ops.push(op)).0 =~= run(m, ops).0.push(apply(run(m, ops).1, op).0));
    }
}

/// A store of dialogue records keyed by chat.
///
/// Its state fixes what every operation does: while the store refuses
/// service (`refusal` is some error) each operation fails with that error and
/// leaves the records as they were; otherwise it succeeds with the effect
/// stated below. A store that is infallible fails no operation and stays
/// infallible.
pub trait Storage<D: Clone>: Sized {
    type Error;

    /// The records held, by chat.
    spec fn dialogues(&self) -> Map<i64, D>;

    /// The error with which the next operation fails, if it fails.
    spec fn refusal(&self) -> Option<Self::Error>;

    /// Whether every operation from now on is sure to succeed.
    spec fn infallible(&self) -> bool;

    /// The record of `chat_id`, if there is one.
    fn get_dialogue(&self, chat_id: i64) -> (r: Result<Option<D>, Self::Error>)
        ensures
            r is Err <==> self.refusal() is Some,
            r matches Err(e) ==> self.refusal() == Some(e),
            self.infallible() ==> r is Ok,
            r matches Ok(found) ==> match found {
                Some(d) => self.dialogues().contains_key(chat_id) && cloned(
                    self.dialogues()[chat_id],
                    d,
                ),
                None => !self.dialogues().contains_key(chat_id),
            },
    ;

    /// Replaces the record of `chat_id` and returns the previous one.
    fn update_dialogue(&mut self, chat_id: i64, dialogue: D) -> (r: Result<Option<D>, Self::Error>)
        ensures
            r == outcome(old(self).refusal(), lookup(old(self).dialogues(), chat_id)),
            r is Ok ==> final(self).dialogues() == old(self).dialogues().insert(chat_id, dialogue),
            r is Err ==> final(self).dialogues() == old(self).dialogues(),
            old(self).infallible() ==> r is Ok && final(self).infallible(),
    ;

    /// Deletes the record of `chat_id` and returns it.
    fn remove_dialogue(&mut self, chat_id: i64) -> (r: Result<Option<D>, Self::Error>)
        ensures
            r == outcome(old(self).refusal(), lookup(old(self).dialogues(), chat_id)),
            r is Ok ==> final(self).dialogues() == old(self).dialogues().remove(chat_id),
            r is Err ==> final(self).dialogues() == old(self).dialogues(),
            old(self).infallible() ==> r is Ok && final(self).infallible(),
    ;
}

/// Runs a script of operations on `store`, one after the other, and returns
/// what each returned; stops at the first failure and returns it, with the
/// records as the operations before it left them.
pub fn run_script<D: Clone, S: Storage<D>>(store: &mut S, ops: Vec<Op<D>>) -> (r: Result<
    Vec<Option<D>>,
    S::Error,
>)
    ensures
        old(store).infallible() ==> r is Ok,
        r matches Ok(rs) ==> rs@ == run(old(store).dialogues(), ops@).0 && final(store).dialogues()
            == run(old(store).dialogues(), ops@).1,
        r is Err ==> exists|i: int|
            0 <= i < ops@.len() && final(store).dialogues() == run(
                old(store).dialogues(),
                #[trigger] ops@.take(i),
            ).1,
{
    let ghost start = store.dialogues();
    let ghost sure = store.infallible();
    let ghost script = ops@;
    let ghost mut i: int = 0;
    let mut rest = ops;
    let mut results: Vec<Option<D>> = Vec::new();
    assert(script.take(0) =~= Seq::<Op<D>>::empty());
    while rest.len() > 0
        invariant
            0 <= i <= script.len(),
            start == old(store).dialogues(),
            sure == old(store).infallible(),
            script == ops@,
            rest@ == script.skip(i),
            results@ == run(start, script.take(i)).0,
            store.dialogues() == run(start, script.take(i)).1,
            sure ==> store.infallible(),
        decreases rest.len(),
    {
        let ghost done = script.take(i);
        let op = rest.remove(0);
        assert(op == script[i]);
        proof {
            assert(script.take(i + 1) =~= done.push(script[i]));
            lemma_run_push(start, done, script[i]);
        }
        let prev = match op {
            Op::Update(k, d) => store.update_dialogue(k, d),
            Op::Remove(k) => store.remove_dialogue(k),
        };
        match prev {
            Ok(p) => {
                results.push(p);
                proof {
                    i = i + 1;
                }
                assert(rest@ =~= script.skip(i));
            },
            Err(e) => {
                assert(i < script.len());
                assert(store.dialogues() == run(start, script.take(i)).1);
                return Err(e);
            },
        }
    }
    assert(i == script.len());
    assert(script.take(i) =~= script);
    Ok(results)
}

} // verus!
