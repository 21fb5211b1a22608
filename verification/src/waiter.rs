//! Handlers that wait for a later interaction.

use crate::bindings::Bindings;
use crate::framework::Framework;
use vstd::prelude::*;

verus! {

#[verifier::external_type_specification]
#[verifier::external_body]
pub struct ExRawMutex(parking_lot::RawMutex);

#[verifier::external_type_specification]
#[verifier::external_body]
#[verifier::reject_recursive_types(R)]
#[verifier::reject_recursive_types(T)]
pub struct ExMutex<R, T: ?Sized>(parking_lot::lock_api::Mutex<R, T>);

/// The registered half of a waiter: the predicate that picks the interaction
/// waited for, and the slot through which that interaction is delivered.
pub struct WaiterWaker<D: Bindings> {
    predicate: D::Predicate,
    sender: D::Slot,
}

impl<D: Bindings> WaiterWaker<D> {
    #[verifier::type_invariant]
    closed spec fn callable(self) -> bool {
        forall|framework: &Framework<D>, interaction: &D::Source|
            call_requires(self.predicate, (framework, interaction))
    }

    /// The predicate of this waiter.
    pub closed spec fn predicate(self) -> D::Predicate {
        self.predicate
    }

    /// The slot of this waiter.
    pub closed spec fn sender(self) -> D::Slot {
        self.sender
    }

    /// Whether the predicate of this waiter can return `verdict` on the given
    /// dispatcher and interaction.
    pub open spec fn answers(
        self,
        framework: &Framework<D>,
        interaction: &D::Source,
        verdict: bool,
    ) -> bool {
        call_ensures(self.predicate(), (framework, interaction), verdict)
    }

    /// Pairs a predicate with a slot. The predicate has to accept every
    /// dispatcher and every interaction as its input.
    pub fn new(predicate: D::Predicate, sender: D::Slot) -> (r: Self)
        requires
            forall|framework: &Framework<D>, interaction: &D::Source|
                call_requires(predicate, (framework, interaction)),
        ensures
            r.predicate() == predicate,
            r.sender() == sender,
    {
        WaiterWaker { predicate, sender }
    }

    /// Asks the predicate whether `interaction` is the one waited for.
    pub fn check(&self, framework: &Framework<D>, interaction: &D::Source) -> (r: bool)
        ensures
            self.answers(framework, interaction, r),
    {
        proof {
            use_type_invariant(self);
        }
        (self.predicate)(framework, interaction)
    }

    /// Gives up the slot, through which the caller delivers the interaction.
    pub fn wake(self) -> (r: D::Slot)
        ensures
            r == self.sender(),
    {
        self.sender
    }
}

/// What taking the first accepting waiter out of `before` can lead to: the
/// waiter taken, if any, and the list left.
///
/// The waiters are asked in order. The first whose predicate accepts is taken
/// out and the others stay in their order; every waiter before it has
/// rejected. If all reject, the list stays as it was.
pub open spec fn delivered<D: Bindings>(
    before: Seq<WaiterWaker<D>>,
    framework: &Framework<D>,
    interaction: &D::Source,
    woken: Option<WaiterWaker<D>>,
    left: Seq<WaiterWaker<D>>,
) -> bool {
    match woken {
        Some(waker) => exists|i: int|
            {
                &&& 0 <= i < before.len()
                &&& #[trigger] before[i] == waker
                &&& waker.answers(framework, interaction, true)
                &&& forall|j: int| 0 <= j < i ==> (#[trigger] before[j]).answers(framework, interaction, false)
                &&& left == before.remove(i)
            },
        None => {
            &&& left == before
            &&& forall|j: int|
                0 <= j < before.len() ==> (#[trigger] before[j]).answers(framework, interaction, false)
        },
    }
}

/// Exactly one waiter wakes: where one waiter cannot reject the interaction
/// and none before it can accept it, that waiter is the one taken out, and all
/// the others stay registered in their order.
pub proof fn lemma_first_accepting_waiter_wakes<D: Bindings>(
    before: Seq<WaiterWaker<D>>,
    framework: &Framework<D>,
    interaction: &D::Source,
    woken: Option<WaiterWaker<D>>,
    left: Seq<WaiterWaker<D>>,
    i: int,
)
    requires
        delivered(before, framework, interaction, woken, left),
        0 <= i < before.len(),
        !before[i].answers(framework, interaction, false),
        forall|j: int| 0 <= j < i ==> !(#[trigger] before[j]).answers(framework, interaction, true),
    ensures
        woken == Some(before[i]),
        left == before.remove(i),
{
    match woken {
        Some(waker) => {
            let k = choose|k: int|
                {
                    &&& 0 <= k < before.len()
                    &&& #[trigger] before[k] == waker
                    &&& waker.answers(framework, interaction, true)
                    &&& forall|j: int|
                        0 <= j < k ==> (#[trigger] before[j]).answers(framework, interaction, false)
                    &&& left == before.remove(k)
                };
            if k < i {
                assert(!before[k].answers(framework, interaction, true));
            }
            if k > i {
                assert(before[i].answers(framework, interaction, false));
            }
        },
        None => {
            assert(before[i].answers(framework, interaction, false));
        },
    }
}

/// Where no waiter can accept the interaction, none wakes and the list stays
/// as it was.
pub proof fn lemma_no_waiter_wakes<D: Bindings>(
    before: Seq<WaiterWaker<D>>,
    framework: &Framework<D>,
    interaction: &D::Source,
    woken: Option<WaiterWaker<D>>,
    left: Seq<WaiterWaker<D>>,
)
    requires
        delivered(before, framework, interaction, woken, left),
        forall|j: int|
            0 <= j < before.len() ==> !(#[trigger] before[j]).answers(framework, interaction, true),
    ensures
        woken is None,
        left == before,
{
}

/// The waiters registered, in the order of registration.
pub struct Waiters<D: Bindings> {
    list: Vec<WaiterWaker<D>>,
}

impl<D: Bindings> Waiters<D> {
    /// The waiters, oldest first.
    pub closed spec fn view(&self) -> Seq<WaiterWaker<D>> {
        self.list@
    }

    /// No waiters.
    pub fn new() -> (r: Self)
        ensures
            r@ == Seq::<WaiterWaker<D>>::empty(),
    {
        Waiters { list: Vec::new() }
    }

    /// The number of waiters.
    pub fn len(&self) -> (r: usize)
        ensures
            r == self@.len(),
    {
        self.list.len()
    }

    /// Registers a waiter behind those already there.
    pub fn push(&mut self, waker: WaiterWaker<D>)
        ensures
            final(self)@ == old(self)@.push(waker),
    {
        self.list.push(waker);
    }

    /// Takes out the first waiter whose predicate accepts `interaction`.
    pub fn take_first(&mut self, framework: &Framework<D>, interaction: &D::Source) -> (r: Option<
        WaiterWaker<D>,
    >)
        ensures
            delivered(old(self)@, framework, interaction, r, final(self)@),
    {
        let mut i: usize = 0;
        while i < self.list.len()
            invariant
                i <= self.list@.len(),
                *self == *old(self),
                forall|j: int| 0 <= j < i ==> (#[trigger] self@[j]).answers(framework, interaction, false),
            decreases self.list@.len() - i,
        {
            if self.list[i].check(framework, interaction) {
                let waker = self.list.remove(i);
                assert(old(self)@[i as int] == waker);
                return Some(waker);
            }
            i += 1;
        }
        None
    }
}

/// A value while the lock that guards it is held. The lock is released when
/// this goes out of scope.
#[verifier::external_body]
#[verifier::reject_recursive_types(T)]
pub(crate) struct Held<'a, T> {
    guard: parking_lot::MutexGuard<'a, T>,
}

/// Calls `Mutex::new` of `parking_lot`, which puts `value` behind a lock that
/// nobody holds. Nothing is claimed of the result.
#[verifier::external_body]
pub(crate) fn guarded<T>(value: T) -> (r: parking_lot::Mutex<T>) {
    parking_lot::Mutex::new(value)
}

/// Calls `Mutex::lock` of `parking_lot`, which blocks until the lock is free
/// and then holds it. Nothing is claimed of what the lock guards: other
/// threads may have changed it since it was last seen. The lock is not
/// reentrant: the callers in this crate take it once and release it before
/// they return.
#[verifier::external_body]
pub(crate) fn lock<'a, T>(mutex: &'a parking_lot::Mutex<T>) -> (r: Held<'a, T>) {
    Held { guard: mutex.lock() }
}

/// Calls `DerefMut::deref_mut` of `MutexGuard` of `parking_lot`, which gives
/// access to what the held lock guards. Nothing is claimed of what is found
/// there.
#[verifier::external_body]
pub(crate) fn contents<'b, 'a, T>(held: &'b mut Held<'a, T>) -> (r: &'b mut T) {
    &mut *held.guard
}

} // verus!
