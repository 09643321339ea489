use crate::make_service::MakeService;
use std::convert::Infallible;
use vstd::prelude::*;

verus! {

/// A factory that holds a finished service and builds by cloning it.
#[derive(Debug, Clone)]
pub struct CloneFactory<T> {
    svc: T,
}

impl<T> CloneFactory<T> {
    /// The service every build is a clone of.
    pub closed spec fn service(&self) -> T {
        self.svc
    }

    /// The factory that holds `svc`.
    pub closed spec fn holding(svc: T) -> Self {
        CloneFactory { svc }
    }

    /// The factory that holds `svc` builds clones of `svc`.
    pub proof fn lemma_holding_service(svc: T)
        ensures
            Self::holding(svc).service() == svc,
    {
    }

    /// A factory of clones of `svc`.
    pub fn new(svc: T) -> (factory: Self)
        ensures
            factory == Self::holding(svc),
            factory.service() == svc,
    {
        Self { svc }
    }

    /// The service the factory was made with.
    pub fn into_inner(self) -> (svc: T)
        ensures
            svc == self.service(),
    {
        self.svc
    }
}

impl<T> MakeService for CloneFactory<T> where T: Clone {
    type Service = T;

    type Error = Infallible;

    /// Every build succeeds with a clone of the service held, whatever the
    /// old service is.
    open spec fn makes(&self, old: Option<&T>, result: Result<T, Infallible>) -> bool {
        match result {
            Ok(svc) => cloned(self.service(), svc),
            Err(_) => false,
        }
    }

    fn make_via_ref(&self, _old: Option<&T>) -> (result: Result<T, Infallible>) {
        Ok(self.svc.clone())
    }
}

impl<T> From<T> for CloneFactory<T> {
    fn from(svc: T) -> (factory: Self) {
        CloneFactory { svc }
    }
}

impl<T> vstd::std_specs::convert::FromSpecImpl<T> for CloneFactory<T> {
    open spec fn obeys_from_spec() -> bool {
        true
    }

    open spec fn from_spec(svc: T) -> Self {
        CloneFactory::holding(svc)
    }
}

} // verus!
