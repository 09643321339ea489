use crate::make_service::AsyncMakeService;
use crate::make_service::MakeService;
use crate::service::Service;
use vstd::prelude::*;

verus! {

/// A transform of requests, applied before the request reaches a handler.
pub trait MapTarget<T> {
    /// What the transform turns a `T` into.
    type Target;

    /// The inputs the transform can be applied to: all of them, unless an
    /// implementation says otherwise.
    open spec fn can_map(&self, t: T) -> bool {
        true
    }

    /// Whether `out` is what `map_target(t)` may return. An implementation
    /// that does not say is taken to promise nothing.
    open spec fn maps(&self, t: T, out: Self::Target) -> bool {
        true
    }

    /// Applies the transform.
    fn map_target(&self, t: T) -> (out: Self::Target)
        requires
            self.can_map(t),
        ensures
            self.maps(t, out),
    ;
}

/// Every closure of one argument is a transform: its domain is the closure's
/// own precondition and its graph the closure's own postcondition.
impl<F, T, U> MapTarget<T> for F where F: Fn(T) -> U {
    type Target = U;

    open spec fn can_map(&self, t: T) -> bool {
        call_requires(*self, (t,))
    }

    open spec fn maps(&self, t: T, out: U) -> bool {
        call_ensures(*self, (t,), out)
    }

    fn map_target(&self, t: T) -> (out: U) {
        (self)(t)
    }
}

/// A transform `f` in front of `inner`.
///
/// In front of a service it is a service of the transform's input type. In
/// front of a factory it is a factory of such services: each one built holds
/// a clone of the transform.
pub struct MapTargetService<T, F> {
    pub f: F,
    pub inner: T,
}

/// The service below the transform of `old`, if `old` is there.
pub open spec fn inner_of<T, F>(old: Option<&MapTargetService<T, F>>) -> Option<&T> {
    match old {
        Some(o) => Some(&o.inner),
        None => None,
    }
}

impl<T, F, R> Service<R> for MapTargetService<T, F> where F: MapTarget<R>, T: Service<F::Target> {
    type Response = T::Response;

    type Error = T::Error;

    /// The transform takes the request, and the service below takes whatever
    /// the transform may turn it into.
    open spec fn accepts(&self, req: R) -> bool {
        &&& self.f.can_map(req)
        &&& forall|mapped: F::Target| #[trigger]
            self.f.maps(req, mapped) ==> self.inner.accepts(mapped)
    }

    /// The service below responds so to a request that the transform may
    /// turn `req` into.
    open spec fn responds(&self, req: R, result: Result<T::Response, T::Error>) -> bool {
        exists|mapped: F::Target| #[trigger]
            self.f.maps(req, mapped) && self.inner.responds(mapped, result)
    }

    fn call(&self, req: R) -> (result: Result<T::Response, T::Error>) {
        let mapped = self.f.map_target(req);
        self.inner.call(mapped)
    }
}

impl<FAC, F> MakeService for MapTargetService<FAC, F> where FAC: MakeService, F: Clone {
    type Service = MapTargetService<FAC::Service, F>;

    type Error = FAC::Error;

    /// The factory below builds from the service below the old transform, and
    /// the service built holds a clone of this factory's transform. A failure
    /// of the factory below is handed on as it is.
    open spec fn makes(&self, old: Option<&Self::Service>, result: Result<
        Self::Service,
        Self::Error,
    >) -> bool {
        match result {
            Ok(svc) => {
                &&& cloned(self.f, svc.f)
                &&& self.inner.makes(inner_of(old), Ok(svc.inner))
            },
            Err(e) => self.inner.makes(inner_of(old), Err(e)),
        }
    }

    fn make_via_ref(&self, old: Option<&Self::Service>) -> (result: Result<
        Self::Service,
        Self::Error,
    >) {
        let old_inner = match old {
            Some(o) => Some(&o.inner),
            None => None,
        };
        let f = self.f.clone();
        match self.inner.make_via_ref(old_inner) {
            Ok(inner) => Ok(MapTargetService { f, inner }),
            Err(e) => Err(e),
        }
    }
}

impl<FAC, F> AsyncMakeService for MapTargetService<FAC, F> where FAC: AsyncMakeService, F: Clone {
    type Service = MapTargetService<FAC::Service, F>;

    type Error = FAC::Error;

    /// As for the factory that does not suspend.
    open spec fn makes(&self, old: Option<&Self::Service>, result: Result<
        Self::Service,
        Self::Error,
    >) -> bool {
        match result {
            Ok(svc) => {
                &&& cloned(self.f, svc.f)
                &&& self.inner.makes(inner_of(old), Ok(svc.inner))
            },
            Err(e) => self.inner.makes(inner_of(old), Err(e)),
        }
    }

    fn make_via_ref(&self, old: Option<&Self::Service>) -> (result: Result<
        Self::Service,
        Self::Error,
    >) {
        let old_inner = match old {
            Some(o) => Some(&o.inner),
            None => None,
        };
        let f = self.f.clone();
        match self.inner.make_via_ref(old_inner) {
            Ok(inner) => Ok(MapTargetService { f, inner }),
            Err(e) => Err(e),
        }
    }
}

} // verus!
