use vstd::prelude::*;
use std::marker::PhantomData;

verus! {

/// A callback that is shown a value and gives nothing back.
///
/// An implementation may describe what a call does: `observed` holds of
/// the values for which a completed call has done its work. Implementations
/// that do not describe themselves claim nothing.
pub trait Observer<TValue> {
    /// Whether a completed call on `value` has done what this observer does.
    open spec fn observed(&self, value: &TValue) -> bool {
        true
    }

    /// Shows `value` to the callback.
    fn call(&self, value: &TValue)
        ensures
            self.observed(value),
    ;
}

/// An observer that can be shared between threads.
pub trait SharedObserver<TValue>: Observer<TValue> + Send + Sync {
}

impl<TValue, O: Observer<TValue> + Send + Sync> SharedObserver<TValue> for O {
}

/// The values that a stored observer has been shown, as a predicate: it
/// holds of each value for which a call on the observer has completed.
pub type Observation<TValue> = spec_fn(TValue) -> bool;

/// What `observer` states of a completed call, for each value.
pub open spec fn observation<TValue>(observer: &Box<dyn Observer<TValue>>) -> Observation<TValue> {
    |value: TValue| observer.observed(&value)
}

/// What a shared `observer` states of a completed call, for each value.
pub open spec fn shared_observation<TValue>(observer: &Box<dyn SharedObserver<TValue>>) -> Observation<
    TValue,
> {
    |value: TValue| observer.observed(&value)
}

/// A shared observer that is shown at most one value: showing it a value
/// uses it up, so it cannot be shown a second one.
#[verifier::reject_recursive_types(TValue)]
pub struct OnceObserver<TValue> {
    held: Option<Box<dyn SharedObserver<TValue>>>,
}

impl<TValue> OnceObserver<TValue> {
    #[verifier::type_invariant]
    spec fn holds_one(self) -> bool {
        self.held is Some
    }

    /// What the observer states of a completed call, for each value.
    pub closed spec fn observation(self) -> Observation<TValue> {
        shared_observation(&self.held.unwrap())
    }

    /// Wraps the observer held by `observer`, if there is one.
    pub(crate) fn wrap(observer: Option<Box<dyn SharedObserver<TValue>>>) -> (once: Option<Self>)
        ensures
            observer is None ==> once is None,
            observer is Some ==> (once matches Some(wrapped) && wrapped.observation()
                == shared_observation(&observer.unwrap())),
    {
        if observer.is_some() {
            Some(OnceObserver { held: observer })
        } else {
            None
        }
    }

    /// Shows `value` to the observer, which is used up by it. Returns the
    /// values the observer was shown over its whole life: `value` alone.
    pub(crate) fn notify(self, value: &TValue) -> (shown: Ghost<Seq<TValue>>)
        ensures
            shown@ == seq![*value],
            (self.observation())(*value),
    {
        proof {
            use_type_invariant(&self);
        }
        let OnceObserver { held } = self;
        if let Some(observer) = held {
            observer.call(value);
        }
        let shown: Ghost<Seq<TValue>> = Ghost(Seq::empty().push(*value));
        shown
    }
}

/// What each of `observers` states of a completed call, in order.
pub open spec fn observations<TValue>(observers: Seq<Box<dyn Observer<TValue>>>) -> Seq<
    Observation<TValue>,
> {
    observers.map_values(|observer: Box<dyn Observer<TValue>>| observation(&observer))
}

/// Whether every one of `observers` has been shown every one of `values`.
pub open spec fn all_shown<TValue>(observers: Seq<Observation<TValue>>, values: Seq<TValue>) -> bool {
    forall|i: int, j: int|
        #![trigger values[i], observers[j]]
        0 <= i < values.len() && 0 <= j < observers.len() ==> (observers[j])(values[i])
}

/// What a completed call of the closure `callback` states, for each value.
pub open spec fn closure_observation<TValue, F: Fn(&TValue)>(callback: F) -> Observation<TValue> {
    |value: TValue| call_ensures(callback, (&value,), ())
}

/// A closure used as an [`Observer`].
pub struct ObserverFn<TValue, F: Fn(&TValue)> {
    callback: F,
    value: Ghost<PhantomData<TValue>>,
}

impl<TValue, F: Fn(&TValue)> ObserverFn<TValue, F> {
    #[verifier::type_invariant]
    spec fn callable(self) -> bool {
        forall|value: &TValue| #[trigger] call_requires(self.callback, (value,))
    }

    /// Wraps a closure that accepts every value.
    pub fn new(callback: F) -> (wrapped: Self)
        requires
            forall|value: &TValue| #[trigger] call_requires(callback, (value,)),
        ensures
            wrapped.callback() == callback,
    {
        ObserverFn { callback, value: Ghost(PhantomData) }
    }

    /// The wrapped closure, which `call` invokes.
    pub closed spec fn callback(self) -> F {
        self.callback
    }
}

impl<TValue, F: Fn(&TValue)> Observer<TValue> for ObserverFn<TValue, F> {
    open spec fn observed(&self, value: &TValue) -> bool {
        call_ensures(self.callback(), (value,), ())
    }

    fn call(&self, value: &TValue) {
        proof {
            use_type_invariant(self);
        }
        (self.callback)(value)
    }
}

/// Moves `observer` into a box as a type-erased observer, ready to be
/// stored as an optional callback; the result is always `Some`.
///
/// Calls `Box::new` and lets the box be coerced to a trait object. The
/// contract claims that calls on the trait object dispatch to `observer`'s
/// own implementation, so that the boxed observer states what `observer`
/// states.
#[verifier::external_body]
pub(crate) fn erase_observer<TValue, O: Observer<TValue> + 'static>(observer: O) -> (erased: Option<
    Box<dyn Observer<TValue>>,
>)
    ensures
        erased is Some,
        forall|value: &TValue|
            #[trigger] erased.unwrap().observed(value) == observer.observed(value),
{
    Some(Box::new(observer))
}

/// Moves `observer` into a box as a type-erased observer that can be
/// shared between threads, ready to be stored as an optional callback; the
/// result is always `Some`.
///
/// Calls `Box::new` and lets the box be coerced to a trait object. The
/// contract claims that calls on the trait object dispatch to `observer`'s
/// own implementation, so that the boxed observer states what `observer`
/// states.
#[verifier::external_body]
pub(crate) fn share_observer<TValue, O: Observer<TValue> + Send + Sync + 'static>(
    observer: O,
) -> (shared: Option<Box<dyn SharedObserver<TValue>>>)
    ensures
        shared is Some,
        forall|value: &TValue|
            #[trigger] shared.unwrap().observed(value) == observer.observed(value),
{
    Some(Box::new(observer))
}

} // verus!
