//! Factories of services: the two interfaces, the factory made of a callable,
//! and what holds between them.
//!
//! What a factory does is stated by two predicates of its own: when it may be
//! asked (`can_construct`, `can_make`) and which constructions it may hand
//! back (`constructs`, `makes`). The implementations in this module define
//! them by the precondition and the postcondition of the callable that they
//! call, so a caller that knows the callable knows the construction.
//!
//! Verus does not relate a closure or a named function whose type is known
//! to the implementations below that are bounded by `Fn`: at a call of a
//! trait method on it, it knows neither predicate. Code that is generic in
//! the factory or in the callable, as a server loop is, is not affected.
//! Where the callable is known, call it as it is, or call
//! `MakeServiceFn::make_service`, which is no trait method.
use vstd::prelude::*;
use std::marker::PhantomData;
use crate::body::Payload;
use crate::error::ErasedError;
use super::{Construction, Service};

verus! {

/// Wraps the callable `f` into a factory that makes a service for each
/// context by calling `f` on it.
///
/// The factory keeps `f` and nothing else.
pub fn make_service_fn<F, Ctx, R>(f: F) -> (made: MakeServiceFn<F, R>) where
    F: for <'a>Fn(&'a Ctx) -> R,
    R: Construction,

    ensures
        made@ == f,
{
    MakeServiceFn { f, _req: PhantomData }
}

/// A factory of services that takes nothing from the connection.
pub trait NewService {
    /// The body of the requests that the services take.
    type ReqBody: Payload;

    /// The body of the responses that the services give.
    type ResBody: Payload;

    /// The error that a service may end a request with.
    type Error: Into<ErasedError>;

    /// The services that this factory constructs.
    type Service: Service<ReqBody = Self::ReqBody, ResBody = Self::ResBody, Error = Self::Error>;

    /// The construction that `new_service` hands back.
    type Future: Construction<Service = Self::Service, Error = Self::InitError>;

    /// The error that a construction may end in.
    type InitError: Into<ErasedError>;

    /// Whether the factory may be asked for a service. It may always be,
    /// unless an implementation says otherwise.
    open spec fn can_construct(&self) -> bool {
        true
    }

    /// Whether `fut` is a construction that the factory may hand back. Any
    /// is, unless an implementation says more.
    open spec fn constructs(&self, fut: Self::Future) -> bool {
        true
    }

    /// Starts the construction of a service and hands it back at once: what
    /// takes time is left to the construction.
    fn new_service(&self) -> (fut: Self::Future)
        requires
            self.can_construct(),
        ensures
            self.constructs(fut),
    ;
}

/// A factory of services that is handed a context of the connection.
pub trait MakeService<Ctx> {
    /// The body of the requests that the services take.
    type ReqBody: Payload;

    /// The body of the responses that the services give.
    type ResBody: Payload;

    /// The error that a service may end a request with.
    type Error: Into<ErasedError>;

    /// The services that this factory makes.
    type Service: Service<ReqBody = Self::ReqBody, ResBody = Self::ResBody, Error = Self::Error>;

    /// The construction that `make_service` hands back.
    type Future: Construction<Service = Self::Service, Error = Self::MakeError>;

    /// The error that a construction may end in.
    type MakeError: Into<ErasedError>;

    /// Whether the factory may be asked for a service for `ctx`. It may
    /// always be, unless an implementation says otherwise.
    open spec fn can_make(&self, ctx: Ctx) -> bool {
        true
    }

    /// Whether `fut` is a construction that the factory may hand back for
    /// `ctx`. Any is, unless an implementation says more.
    open spec fn makes(&self, ctx: Ctx, fut: Self::Future) -> bool {
        true
    }

    /// Starts the construction of a service for `ctx` and hands it back at
    /// once: what takes time is left to the construction. The context is
    /// the caller's; the factory keeps of it only what it puts into the
    /// construction.
    fn make_service(&self, ctx: Ctx) -> (fut: Self::Future)
        requires
            self.can_make(ctx),
        ensures
            self.makes(ctx, fut),
    ;
}

/// Every callable without arguments that returns a construction is a factory:
/// to construct is to call it.
impl<F, R> NewService for F where F: Fn() -> R, R: Construction {
    type ReqBody = <R::Service as Service>::ReqBody;

    type ResBody = <R::Service as Service>::ResBody;

    type Error = <R::Service as Service>::Error;

    type Service = R::Service;

    type Future = R;

    type InitError = R::Error;

    open spec fn can_construct(&self) -> bool {
        call_requires(*self, ())
    }

    open spec fn constructs(&self, fut: R) -> bool {
        call_ensures(*self, (), fut)
    }

    fn new_service(&self) -> (fut: R) {
        (*self)()
    }
}

/// Every factory that needs no context is a factory for any context: it
/// makes by constructing, whatever the context.
impl<N, Ctx> MakeService<Ctx> for N where N: NewService {
    type ReqBody = N::ReqBody;

    type ResBody = N::ResBody;

    type Error = N::Error;

    type Service = N::Service;

    type Future = N::Future;

    type MakeError = N::InitError;

    open spec fn can_make(&self, ctx: Ctx) -> bool {
        self.can_construct()
    }

    open spec fn makes(&self, ctx: Ctx, fut: N::Future) -> bool {
        self.constructs(fut)
    }

    fn make_service(&self, _ctx: Ctx) -> (fut: N::Future) {
        self.new_service()
    }
}

/// The factory that `make_service_fn` returns: a callable, kept to be called
/// on each context.
pub struct MakeServiceFn<F, R> {
    f: F,
    _req: PhantomData<R>,
}

impl<F, R> View for MakeServiceFn<F, R> {
    type V = F;

    /// The callable that the factory keeps.
    closed spec fn view(&self) -> F {
        self.f
    }
}

impl<F, R> MakeServiceFn<F, R> {
    /// Calls the callable on `ctx` and hands back what it returns, as it is.
    ///
    /// This is what `MakeService::make_service` does for this factory.
    pub fn make_service<'a, Ctx>(&self, ctx: &'a Ctx) -> (fut: R) where F: Fn(&'a Ctx) -> R
        requires
            call_requires(self@, (ctx,)),
        ensures
            call_ensures(self@, (ctx,), fut),
    {
        (self.f)(ctx)
    }
}

/// The factory made of a callable makes by calling it on the context, which
/// it borrows for the call.
impl<'a, F, Ctx, Ret> MakeService<&'a Ctx> for MakeServiceFn<F, Ret> where
    F: Fn(&'a Ctx) -> Ret,
    Ret: Construction,
 {
    type ReqBody = <Ret::Service as Service>::ReqBody;

    type ResBody = <Ret::Service as Service>::ResBody;

    type Error = <Ret::Service as Service>::Error;

    type Service = Ret::Service;

    type Future = Ret;

    type MakeError = Ret::Error;

    open spec fn can_make(&self, ctx: &'a Ctx) -> bool {
        call_requires(self@, (ctx,))
    }

    open spec fn makes(&self, ctx: &'a Ctx, fut: Ret) -> bool {
        call_ensures(self@, (ctx,), fut)
    }

    fn make_service(&self, ctx: &'a Ctx) -> (fut: Ret) {
        (self.f)(ctx)
    }
}

/// A factory that needs no context, taken as a factory for contexts of any
/// type: whatever the context, it may be asked to make exactly when it may be
/// asked to construct, and what it may hand back is exactly what constructing
/// may hand back.
pub proof fn lemma_upgrade_transparent<N, Ctx>(factory: N, ctx: Ctx, fut: N::Future) where
    N: NewService,

    ensures
        MakeService::<Ctx>::can_make(&factory, ctx) <==> factory.can_construct(),
        MakeService::<Ctx>::makes(&factory, ctx, fut) <==> factory.constructs(fut),
{
}

/// A factory that needs no context makes the same for any two contexts, be
/// they of one type or of two.
pub proof fn lemma_upgrade_ignores_context<N, C1, C2>(factory: N, c1: C1, c2: C2, fut: N::Future) where
    N: NewService,

    ensures
        MakeService::<C1>::can_make(&factory, c1) <==> MakeService::<C2>::can_make(&factory, c2),
        MakeService::<C1>::makes(&factory, c1, fut) <==> MakeService::<C2>::makes(
            &factory,
            c2,
            fut,
        ),
{
}

/// A callable without arguments, taken as a factory: it may be asked to
/// construct exactly when it may be called, and what it may hand back is
/// exactly what the call may return.
pub proof fn lemma_callable_constructs<F, R>(f: F, fut: R) where F: Fn() -> R, R: Construction
    ensures
        f.can_construct() <==> call_requires(f, ()),
        f.constructs(fut) <==> call_ensures(f, (), fut),
{
}

/// The factory made of a callable adds nothing to the callable: it may be
/// asked to make for `ctx` exactly when the callable may be called on `ctx`,
/// and what it may hand back is exactly what that call may return.
pub proof fn lemma_adapter_equivalent<'a, F, Ctx, Ret>(
    factory: MakeServiceFn<F, Ret>,
    ctx: &'a Ctx,
    fut: Ret,
) where F: Fn(&'a Ctx) -> Ret, Ret: Construction
    ensures
        factory.can_make(ctx) <==> call_requires(factory@, (ctx,)),
        factory.makes(ctx, fut) <==> call_ensures(factory@, (ctx,), fut),
{
}

/// Two constructions that one factory made of a callable hands back, one for
/// `c1` and one for `c2`: where the callable derives what it returns from its
/// argument alone, by `derive`, each construction is derived from its own
/// context, whatever the other context is.
pub proof fn lemma_construction_isolated<'a, F, Ctx, Ret>(
    factory: MakeServiceFn<F, Ret>,
    derive: spec_fn(Ctx) -> Ret,
    c1: &'a Ctx,
    c2: &'a Ctx,
    fut1: Ret,
    fut2: Ret,
) where F: Fn(&'a Ctx) -> Ret, Ret: Construction
    requires
        forall|c: &'a Ctx, r: Ret| call_ensures(factory@, (c,), r) ==> r == derive(*c),
        factory.makes(c1, fut1),
        factory.makes(c2, fut2),
    ensures
        fut1 == derive(*c1),
        fut2 == derive(*c2),
{
}

} // verus!
