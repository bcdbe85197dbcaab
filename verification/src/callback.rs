//! Shared unary function objects converting an occurring event into an
//! application message, with the two combinators a component hierarchy needs:
//! postcompose (chain a message adapter after) and precompose (chain an event
//! adapter before).

use core::marker::PhantomData;
use vstd::prelude::*;

verus! {

/// A unary function object from an event to a message.
///
/// Every handler computes the mathematical function `model`; `invoke` is owed
/// that exact result whenever the handler is well formed (`wf`).
pub trait Handler<EVENT, MSG> {
    /// The mathematical function this handler computes.
    spec fn model(&self, e: EVENT) -> MSG;

    /// The handler is fit to be invoked on every event, and invoking it
    /// returns exactly `model`.
    spec fn wf(&self) -> bool;

    /// Computes the message for an occurring event.
    fn invoke(&self, e: EVENT) -> (r: MSG)
        requires
            self.wf(),
        ensures
            r == self.model(e),
    ;
}

/// A handler backed by a plain Rust closure together with the mathematical
/// function the closure is known to compute.
#[verifier::reject_recursive_types(EVENT)]
pub struct FnHandler<EVENT, MSG, F> {
    func: F,
    model_fn: Ghost<spec_fn(EVENT) -> MSG>,
}

impl<EVENT, MSG, F: Fn(EVENT) -> MSG> FnHandler<EVENT, MSG, F> {
    /// Wraps a closure that may be called on every event and returns one
    /// determined result per event.
    pub fn new(func: F) -> (r: Self)
        requires
            forall|e: EVENT| #[trigger] call_requires(func, (e,)),
            forall|e: EVENT, y1: MSG, y2: MSG|
                call_ensures(func, (e,), y1) && call_ensures(func, (e,), y2) ==> y1 == y2,
        ensures
            r.wf(),
            forall|e: EVENT, y: MSG| #[trigger] call_ensures(func, (e,), y) ==> r.model(e) == y,
    {
        let ghost m = |e: EVENT| choose|y: MSG| call_ensures(func, (e,), y);
        proof {
            assert forall|e: EVENT, y: MSG| #[trigger] call_ensures(func, (e,), y) implies m(e)
                == y by {
                assert(call_ensures(func, (e,), m(e)));
            }
        }
        FnHandler { func, model_fn: Ghost(m) }
    }
}

impl<EVENT, MSG, F: Fn(EVENT) -> MSG> Handler<EVENT, MSG> for FnHandler<EVENT, MSG, F> {
    closed spec fn model(&self, e: EVENT) -> MSG {
        (self.model_fn@)(e)
    }

    closed spec fn wf(&self) -> bool {
        (forall|e: EVENT| #[trigger] call_requires(self.func, (e,))) && (forall|e: EVENT, y: MSG|
            #[trigger] call_ensures(self.func, (e,), y) ==> y == (self.model_fn@)(e))
    }

    fn invoke(&self, e: EVENT) -> (r: MSG) {
        (self.func)(e)
    }
}

/// The handler a purely static attribute is typed over when no callback is
/// ever involved: it is never well formed, so it is never invoked.
pub struct NoCallback;

impl<EVENT, MSG> Handler<EVENT, MSG> for NoCallback {
    closed spec fn model(&self, e: EVENT) -> MSG {
        arbitrary()
    }

    closed spec fn wf(&self) -> bool {
        false
    }

    fn invoke(&self, e: EVENT) -> (r: MSG) {
        unreached()
    }
}

/// A handler that applies `first` and then `second`.
pub struct Composed<MID, F, G> {
    first: F,
    second: G,
    _mid: PhantomData<MID>,
}

impl<EVENT, MID, MSG, F: Handler<EVENT, MID>, G: Handler<MID, MSG>> Handler<EVENT, MSG> for Composed<
    MID,
    F,
    G,
> {
    closed spec fn model(&self, e: EVENT) -> MSG {
        self.second.model(self.first.model(e))
    }

    closed spec fn wf(&self) -> bool {
        self.first.wf() && self.second.wf()
    }

    fn invoke(&self, e: EVENT) -> (r: MSG) {
        let mid = self.first.invoke(e);
        self.second.invoke(mid)
    }
}

/// A unary function object converting an occurring `EVENT` into an application
/// `MSG`, owned through the handler `F` that computes it.
#[verifier::reject_recursive_types(EVENT)]
#[verifier::reject_recursive_types(MSG)]
pub struct Callback<EVENT, MSG, F> {
    func: F,
    _types: PhantomData<(EVENT, MSG)>,
}

impl<EVENT, MSG, F: Fn(EVENT) -> MSG> Callback<EVENT, MSG, FnHandler<EVENT, MSG, F>> {
    /// Builds a callback from a closure that may be called on every event and
    /// returns one determined result per event.
    pub fn from_func(func: F) -> (r: Self)
        requires
            forall|e: EVENT| #[trigger] call_requires(func, (e,)),
            forall|e: EVENT, y1: MSG, y2: MSG|
                call_ensures(func, (e,), y1) && call_ensures(func, (e,), y2) ==> y1 == y2,
        ensures
            r.wf(),
            forall|e: EVENT, y: MSG| #[trigger] call_ensures(func, (e,), y) ==> r.model(e) == y,
    {
        Callback { func: FnHandler::new(func), _types: PhantomData }
    }
}

impl<EVENT, MSG, F: Handler<EVENT, MSG>> Callback<EVENT, MSG, F> {
    /// The mathematical function this callback computes.
    pub closed spec fn model(&self, e: EVENT) -> MSG {
        self.func.model(e)
    }

    /// The callback is fit to be emitted on every event.
    pub closed spec fn wf(&self) -> bool {
        self.func.wf()
    }

    /// Builds a callback directly from a handler.
    pub fn from_handler(func: F) -> (r: Self)
        ensures
            r.wf() == func.wf(),
            forall|e: EVENT| r.model(e) == func.model(e),
    {
        Callback { func, _types: PhantomData }
    }

    /// Converts an occurring event into the application message the callback
    /// computes for it.
    pub fn emit(&self, e: EVENT) -> (r: MSG)
        requires
            self.wf(),
        ensures
            r == self.model(e),
    {
        self.func.invoke(e)
    }

    /// Postcomposes: the produced callback first applies this callback, then
    /// `cb`, so its message type becomes that of `cb`.
    pub fn map_callback<MSG2, G: Handler<MSG, MSG2>>(self, cb: Callback<MSG, MSG2, G>) -> (r:
        Callback<EVENT, MSG2, Composed<MSG, F, G>>)
        ensures
            r.wf() == (self.wf() && cb.wf()),
            forall|e: EVENT| r.model(e) == cb.model(self.model(e)),
    {
        Callback {
            func: Composed { first: self.func, second: cb.func, _mid: PhantomData },
            _types: PhantomData,
        }
    }

    /// Precomposes: the produced callback first applies `func` to the new raw
    /// event, then this callback.
    pub fn reform<EVENT2, H: Fn(EVENT2) -> EVENT>(self, func: H) -> (r: Callback<
        EVENT2,
        MSG,
        Composed<EVENT, FnHandler<EVENT2, EVENT, H>, F>,
    >)
        requires
            forall|e: EVENT2| #[trigger] call_requires(func, (e,)),
            forall|e: EVENT2, y1: EVENT, y2: EVENT|
                call_ensures(func, (e,), y1) && call_ensures(func, (e,), y2) ==> y1 == y2,
        ensures
            r.wf() == self.wf(),
            forall|e: EVENT2, y: EVENT| #[trigger] call_ensures(func, (e,), y) ==> r.model(e)
                == self.model(y),
    {
        Callback {
            func: Composed { first: FnHandler::new(func), second: self.func, _mid: PhantomData },
            _types: PhantomData,
        }
    }
}

} // verus!
