//! The owner's state: the cell's current value together with the full history
//! of values it has held, and the operations the owner task performs on it.

use vstd::prelude::*;

verus! {

/// A request to the owner task. Each variant carries its own one-time reply
/// channel: `Get` is answered with a clone of the current value, `Put` (the
/// write command) with the acknowledgment `true` once the new value is
/// installed.
#[verifier::reject_recursive_types(T)]
pub enum Command<T>
where
    T: Default + Clone + Send + Sync + 'static,
{
    Get { responder: tokio::sync::oneshot::Sender<T> },
    Put { value: T, responder: tokio::sync::oneshot::Sender<bool> },
}

/// True of any value that `T::default()` may return.
pub open spec fn is_default<T: Default>(v: T) -> bool {
    call_ensures(T::default, (), v)
}

/// The owner task's state: the current value, and (as ghost data) every value
/// the cell has held, oldest first. The last entry of the history is always
/// the current value.
pub struct Cell<T> {
    value: T,
    history: Ghost<Seq<T>>,
}

impl<T> Cell<T> {
    /// The value the cell currently holds.
    pub closed spec fn value(&self) -> T {
        self.value
    }

    /// Every value the cell has held, oldest first.
    pub closed spec fn history(&self) -> Seq<T> {
        self.history@
    }

    /// The history is never empty and always ends at the current value.
    pub open spec fn wf(&self) -> bool {
        self.history().len() >= 1 && self.history().last() == self.value()
    }

    /// Construct a cell holding the value type's default.
    pub fn new() -> (c: Self) where T: Default
        ensures
            c.wf(),
            is_default(c.value()),
            c.history() == seq![c.value()],
    {
        let v = T::default();
        let ghost h = seq![v];
        Cell { value: v, history: Ghost(h) }
    }

    /// A point-in-time read: a clone of the current value. The cell itself is
    /// untouched.
    pub fn get(&self) -> (r: T) where T: Clone
        ensures
            cloned(self.value(), r),
    {
        self.value.clone()
    }

    /// Replace the current value and acknowledge. The acknowledgment is
    /// always `true`: a set that runs at all succeeds.
    pub fn set(&mut self, v: T) -> (ack: bool)
        ensures
            ack == true,
            final(self).value() == v,
            final(self).history() == old(self).history().push(v),
            old(self).wf() ==> final(self).wf(),
    {
        self.value = v;
        proof {
            self.history@ = self.history@.push(self.value);
        }
        true
    }

    /// One step of the owner task: apply a single dequeued command.
    ///
    /// A `Get` replies with a clone of the current value and changes nothing;
    /// a `Put` installs the new value, acknowledges with `true`, then
    /// republishes a clone of the new value on the watch channel. Reply and
    /// publish are fire-and-forget: a caller that abandoned its wait, or an
    /// empty set of watchers, never disturbs the owner.
    pub fn handle(&mut self, cmd: Command<T>, notifier: &tokio::sync::watch::Sender<T>) where
        T: Default + Clone + Send + Sync + 'static,

        ensures
            old(self).wf() ==> final(self).wf(),
            cmd matches Command::Get { .. } ==> *final(self) == *old(self),
            cmd matches Command::Put { value: v, .. } ==> final(self).value() == v
                && final(self).history() == old(self).history().push(v),
    {
        match cmd {
            Command::Get { responder } => {
                let r = self.get();
                let _ = responder.send(r);
            },
            Command::Put { value, responder } => {
                let ack = self.set(value);
                let _ = responder.send(ack);
                let r = self.get();
                crate::chan::publish(notifier, r);
            },
        }
    }
}

/// Law: the last write wins. A run of acknowledged `Put(v1) … Put(vn)`
/// extends the history by exactly `v1 … vn` (each `set` pushes its value),
/// so the cell afterwards holds `vn`, and a `Get` that follows the run
/// replies with a clone of `vn`.
pub proof fn lemma_last_put_wins<T>(before: Cell<T>, after: Cell<T>, vs: Seq<T>)
    requires
        after.wf(),
        vs.len() > 0,
        after.history() == before.history() + vs,
    ensures
        after.value() == vs.last(),
{
    assert(after.history().last() == vs.last());
}

/// Law: a fresh cell reads as the default. On a cell whose history still
/// holds only the initial value that `T::default()` produced — exactly how
/// `new` leaves it — a `Get` replies with a clone of that value; for a type
/// whose clone returns an equal value (as `String`'s does), the reply itself
/// is a possible result of `T::default()`.
pub proof fn lemma_fresh_get_is_default<T: Default + Clone>(c: Cell<T>, r: T)
    requires
        is_default(c.value()),
        c.history() == seq![c.value()],
        cloned(c.value(), r),
        forall|a: T, b: T| cloned(a, b) ==> a == b,
    ensures
        is_default(r),
{
}

/// Law: repeated reads agree. Two `Get` replies taken with no intervening
/// write are clones of one and the same current value — `get` leaves the
/// cell untouched — so for a type whose clone returns an equal value (as
/// `String`'s does), the replies are equal.
pub proof fn lemma_repeated_get_agrees<T: Clone>(c: Cell<T>, r1: T, r2: T)
    requires
        cloned(c.value(), r1),
        cloned(c.value(), r2),
        forall|a: T, b: T| cloned(a, b) ==> a == b,
    ensures
        r1 == r2,
{
}

/// Law: visibility is monotone. The watch channel always shows the last
/// entry of the history of published values (the initial default, then each
/// written value in order). If a `Put(x)` was acknowledged while the history
/// was `h1`, with `x` standing at position `i`, then an observation taken at
/// any later history `h2` — `h1` extended by the writes since — sees the
/// value at a position no earlier than `i`: `x` itself or a later write's
/// value, never an earlier one; and observations taken in sequence see
/// positions in order.
pub proof fn lemma_monotone_visibility<T>(h1: Seq<T>, h2: Seq<T>, i: int)
    requires
        0 <= i < h1.len(),
        h1.len() <= h2.len(),
        h2.take(h1.len() as int) == h1,
    ensures
        exists|j: int| i <= j < h2.len() && h2.last() == h2[j],
        h2.len() - 1 >= i,
{
    assert(h2.last() == h2[h2.len() - 1]);
}

} // verus!
