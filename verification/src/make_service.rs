use std::sync::Arc;
use vstd::prelude::*;

verus! {

/// A factory of services.
///
/// `make_via_ref` is handed the service that the new one is to replace, if
/// there is one. A factory may carry over whatever it finds there, or ignore
/// it; it is not meant to fail for want of a predecessor, or over one it
/// cannot use. What the factory may return for a given predecessor is the
/// relation `makes`.
pub trait MakeService {
    /// The services this factory builds.
    type Service;

    /// Why building one can fail.
    type Error;

    /// Whether `result` is an outcome that `make_via_ref(old)` may produce. An
    /// implementation that does not say is taken to promise nothing.
    open spec fn makes(&self, old: Option<&Self::Service>, result: Result<
        Self::Service,
        Self::Error,
    >) -> bool {
        true
    }

    /// Builds a service, with `old` as the one it replaces.
    fn make_via_ref(&self, old: Option<&Self::Service>) -> (result: Result<
        Self::Service,
        Self::Error,
    >)
        ensures
            self.makes(old, result),
    ;

    /// Builds a service from the factory's own configuration alone: the same
    /// as `make_via_ref(None)`.
    fn make(&self) -> (result: Result<Self::Service, Self::Error>)
        ensures
            self.makes(None, result),
    {
        self.make_via_ref(None)
    }
}

impl<T: MakeService + ?Sized> MakeService for &T {
    type Service = T::Service;

    type Error = T::Error;

    open spec fn makes(&self, old: Option<&Self::Service>, result: Result<
        Self::Service,
        Self::Error,
    >) -> bool {
        (**self).makes(old, result)
    }

    fn make_via_ref(&self, old: Option<&Self::Service>) -> (result: Result<
        Self::Service,
        Self::Error,
    >) {
        (**self).make_via_ref(old)
    }
}

impl<T: MakeService + ?Sized> MakeService for Arc<T> {
    type Service = T::Service;

    type Error = T::Error;

    open spec fn makes(&self, old: Option<&Self::Service>, result: Result<
        Self::Service,
        Self::Error,
    >) -> bool {
        (**self).makes(old, result)
    }

    fn make_via_ref(&self, old: Option<&Self::Service>) -> (result: Result<
        Self::Service,
        Self::Error,
    >) {
        (**self).make_via_ref(old)
    }
}

impl<T: MakeService + ?Sized> MakeService for Box<T> {
    type Service = T::Service;

    type Error = T::Error;

    open spec fn makes(&self, old: Option<&Self::Service>, result: Result<
        Self::Service,
        Self::Error,
    >) -> bool {
        (**self).makes(old, result)
    }

    fn make_via_ref(&self, old: Option<&Self::Service>) -> (result: Result<
        Self::Service,
        Self::Error,
    >) {
        (**self).make_via_ref(old)
    }
}

/// The object-safe face of [`MakeService`]: the service and error types are
/// parameters of the trait, so that factories of different types that build
/// the same service can stand behind one `dyn` type.
pub trait DynMakeService<S, E>: Send + Sync {
    /// The `makes` of the factory behind the object.
    spec fn dyn_makes(&self, old: Option<&S>, result: Result<S, E>) -> bool;

    /// The `make_via_ref` of the factory behind the object.
    fn dyn_make_via_ref(&self, old: Option<&S>) -> (result: Result<S, E>)
        ensures
            self.dyn_makes(old, result),
    ;
}

impl<F: MakeService + Send + Sync> DynMakeService<F::Service, F::Error> for F {
    open spec fn dyn_makes(&self, old: Option<&F::Service>, result: Result<
        F::Service,
        F::Error,
    >) -> bool {
        self.makes(old, result)
    }

    fn dyn_make_via_ref(&self, old: Option<&F::Service>) -> (result: Result<F::Service, F::Error>) {
        self.make_via_ref(old)
    }
}

impl<S, E> MakeService for dyn DynMakeService<S, E> {
    type Service = S;

    type Error = E;

    open spec fn makes(&self, old: Option<&S>, result: Result<S, E>) -> bool {
        self.dyn_makes(old, result)
    }

    fn make_via_ref(&self, old: Option<&S>) -> (result: Result<S, E>) {
        self.dyn_make_via_ref(old)
    }
}

/// A factory of `S` behind a `Box`, whatever its own type.
pub type BoxedMakeService<S, E> = Box<dyn DynMakeService<S, E>>;

/// A factory of `S` behind an `Arc`, whatever its own type: cheap to clone
/// and to share between the parts of a program that build from it.
pub type ArcMakeService<S, E> = Arc<BoxedMakeService<S, E>>;

/// A boxed factory of erased services of requests `Req`.
pub type BoxedMakeBoxedService<Req, Resp, SE, ME> = BoxedMakeService<
    crate::boxed::BoxedService<Req, Resp, SE>,
    ME,
>;

/// A shared factory of erased services of requests `Req`.
pub type ArcMakeBoxedService<Req, Resp, SE, ME> = ArcMakeService<
    crate::boxed::BoxedService<Req, Resp, SE>,
    ME,
>;

/// A factory whose construction step may suspend before it completes.
///
/// The contract is that of [`MakeService`], stated of the step once it has
/// run to completion: `makes` relates the predecessor to the finished result.
/// Driving the step to completion is the caller's business; nothing here
/// schedules, times out or cancels.
pub trait AsyncMakeService {
    /// The services this factory builds.
    type Service;

    /// Why building one can fail.
    type Error;

    /// Whether `result` is an outcome that `make_via_ref(old)` may complete
    /// with. An implementation that does not say is taken to promise nothing.
    open spec fn makes(&self, old: Option<&Self::Service>, result: Result<
        Self::Service,
        Self::Error,
    >) -> bool {
        true
    }

    /// Builds a service, with `old` as the one it replaces.
    fn make_via_ref(&self, old: Option<&Self::Service>) -> (result: Result<
        Self::Service,
        Self::Error,
    >)
        ensures
            self.makes(old, result),
    ;

    /// Builds a service from the factory's own configuration alone: the same
    /// as `make_via_ref(None)`.
    fn make(&self) -> (result: Result<Self::Service, Self::Error>)
        ensures
            self.makes(None, result),
    {
        self.make_via_ref(None)
    }
}

impl<T: AsyncMakeService + ?Sized> AsyncMakeService for &T {
    type Service = T::Service;

    type Error = T::Error;

    open spec fn makes(&self, old: Option<&Self::Service>, result: Result<
        Self::Service,
        Self::Error,
    >) -> bool {
        (**self).makes(old, result)
    }

    fn make_via_ref(&self, old: Option<&Self::Service>) -> (result: Result<
        Self::Service,
        Self::Error,
    >) {
        (**self).make_via_ref(old)
    }
}

impl<T: AsyncMakeService + ?Sized> AsyncMakeService for Arc<T> {
    type Service = T::Service;

    type Error = T::Error;

    open spec fn makes(&self, old: Option<&Self::Service>, result: Result<
        Self::Service,
        Self::Error,
    >) -> bool {
        (**self).makes(old, result)
    }

    fn make_via_ref(&self, old: Option<&Self::Service>) -> (result: Result<
        Self::Service,
        Self::Error,
    >) {
        (**self).make_via_ref(old)
    }
}

impl<T: AsyncMakeService + ?Sized> AsyncMakeService for Box<T> {
    type Service = T::Service;

    type Error = T::Error;

    open spec fn makes(&self, old: Option<&Self::Service>, result: Result<
        Self::Service,
        Self::Error,
    >) -> bool {
        (**self).makes(old, result)
    }

    fn make_via_ref(&self, old: Option<&Self::Service>) -> (result: Result<
        Self::Service,
        Self::Error,
    >) {
        (**self).make_via_ref(old)
    }
}

/// Presents a [`MakeService`] as an [`AsyncMakeService`] without changing what
/// it builds.
#[derive(Debug, Clone, Copy, PartialEq, Eq, PartialOrd, Ord, Hash)]
pub struct AsyncMakeServiceWrapper<T>(pub T);

impl<T: MakeService> AsyncMakeService for AsyncMakeServiceWrapper<T> {
    type Service = T::Service;

    type Error = T::Error;

    open spec fn makes(&self, old: Option<&Self::Service>, result: Result<
        Self::Service,
        Self::Error,
    >) -> bool {
        self.0.makes(old, result)
    }

    fn make_via_ref(&self, old: Option<&Self::Service>) -> (result: Result<
        Self::Service,
        Self::Error,
    >) {
        self.0.make_via_ref(old)
    }

    fn make(&self) -> (result: Result<Self::Service, Self::Error>) {
        self.0.make()
    }
}

} // verus!
