use crate::boxed::BoxServiceFactory;
use crate::boxed::BoxedAsyncMakeService;
use crate::layer::FactoryLayer;
use crate::make_service::ArcMakeService;
use crate::make_service::AsyncMakeService;
use crate::make_service::AsyncMakeServiceWrapper;
use crate::make_service::BoxedMakeService;
use crate::make_service::DynMakeService;
use crate::make_service::MakeService;
use crate::map::MapTargetService;
use crate::service::Service;
use std::sync::Arc;
use vstd::prelude::*;

verus! {

/// A builder of nested factories.
///
/// The stack holds a configuration and the factory built so far, which is
/// `()` to begin with. Each layer pushed wraps the factory that is there, so
/// the first layer pushed ends innermost and the last outermost. The
/// configuration is lent to every layer and stays as it was given.
pub struct FactoryStack<C, S> {
    config: C,
    inner: S,
}

impl<C> FactoryStack<C, ()> {
    /// A stack with nothing on it.
    pub fn new(config: C) -> (stack: Self)
        ensures
            stack.config() == config,
            stack.factory() == (),
    {
        FactoryStack { config, inner: () }
    }
}

impl<C, F> FactoryStack<C, F> {
    /// The configuration the stack was made with.
    pub closed spec fn config(&self) -> C {
        self.config
    }

    /// The factory built so far.
    pub closed spec fn factory(&self) -> F {
        self.inner
    }

    /// Puts `factory` in the place of the factory built so far.
    pub fn replace<NF>(self, factory: NF) -> (stack: FactoryStack<C, NF>)
        ensures
            stack.config() == self.config(),
            stack.factory() == factory,
    {
        FactoryStack { config: self.config, inner: factory }
    }

    /// Wraps the factory built so far in `layer`.
    pub fn push<L>(self, layer: L) -> (stack: FactoryStack<C, L::Factory>) where
        L: FactoryLayer<C, F>,

        requires
            layer.can_layer(&self.config(), self.factory()),
        ensures
            stack.config() == self.config(),
            layer.layers(&self.config(), self.factory(), stack.factory()),
    {
        let inner = layer.layer(&self.config, self.inner);
        FactoryStack { config: self.config, inner }
    }

    /// Presents the factory built so far as one whose construction step may
    /// suspend.
    pub fn into_async(self) -> (stack: FactoryStack<C, AsyncMakeServiceWrapper<F>>)
        ensures
            stack.config() == self.config(),
            stack.factory() == AsyncMakeServiceWrapper(self.factory()),
    {
        let inner = AsyncMakeServiceWrapper(self.inner);
        FactoryStack { config: self.config, inner }
    }

    /// Puts the transform `f` in front of the factory built so far.
    pub fn push_map_target<M: Clone>(self, f: M) -> (stack: FactoryStack<
        C,
        MapTargetService<F, M>,
    >)
        ensures
            stack.config() == self.config(),
            stack.factory() == (MapTargetService { f, inner: self.factory() }),
    {
        FactoryStack { config: self.config, inner: MapTargetService { f, inner: self.inner } }
    }

    /// Makes the factory built so far build services behind a
    /// [`BoxedService`](crate::BoxedService) of requests `Req`.
    pub fn into_boxed_service<Req>(self) -> (stack: FactoryStack<C, BoxServiceFactory<F, Req>>)
        ensures
            stack.config() == self.config(),
            stack.factory().factory() == self.factory(),
    {
        FactoryStack { config: self.config, inner: BoxServiceFactory::new(self.inner) }
    }

    /// The same as [`into_boxed_service`](Self::into_boxed_service), for a
    /// stack that is known to build services of requests `Req`.
    pub fn push_boxed_service<Req>(self) -> (stack: FactoryStack<C, BoxServiceFactory<F, Req>>) where
        F: MakeService,
        F::Service: Service<Req>,

        ensures
            stack.config() == self.config(),
            stack.factory().factory() == self.factory(),
    {
        self.into_boxed_service()
    }

    /// Puts the factory built so far behind a `Box`, as a factory of its
    /// services and nothing more. What the boxed factory builds is what the
    /// factory built so far builds.
    pub fn into_boxed_factory(self) -> (stack: FactoryStack<
        C,
        BoxedMakeService<F::Service, F::Error>,
    >) where F: MakeService + Send + Sync + 'static
        ensures
            stack.config() == self.config(),
            forall|old: Option<&F::Service>, result: Result<F::Service, F::Error>| #[trigger]
                stack.factory().makes(old, result) == self.factory().makes(old, result),
    {
        let ghost factory = self.inner;
        let inner: BoxedMakeService<F::Service, F::Error> = Box::new(self.inner);
        proof {
            assert forall|old: Option<&F::Service>, result: Result<F::Service, F::Error>| #[trigger]
                inner.makes(old, result) == factory.makes(old, result) by {
                assert(factory.dyn_makes(old, result) == factory.makes(old, result));
            }
        }
        let stack = FactoryStack { config: self.config, inner };
        proof {
            assert forall|old: Option<&F::Service>, result: Result<F::Service, F::Error>|
                stack.factory().makes(old, result) == factory.makes(old, result) by {
                assert(inner.makes(old, result) == factory.makes(old, result));
                assert(stack.factory().makes(old, result) == inner.makes(old, result));
            }
        }
        stack
    }

    /// Puts the factory built so far, whose construction step may suspend,
    /// behind a [`BoxedAsyncMakeService`]. The wrapper holds that factory and
    /// builds as it does.
    pub fn into_async_boxed_factory(self) -> (stack: FactoryStack<
        C,
        BoxedAsyncMakeService<F::Service, F::Error>,
    >) where F: AsyncMakeService + Send + Sync + 'static, F::Service: 'static
        ensures
            stack.config() == self.config(),
            stack.factory().holds(self.factory()),
            forall|old: Option<&F::Service>, result: Result<F::Service, F::Error>| #[trigger]
                stack.factory().makes(old, result) == self.factory().makes(old, result),
    {
        FactoryStack { config: self.config, inner: BoxedAsyncMakeService::new(self.inner) }
    }

    /// The same as [`into_boxed_factory`](Self::into_boxed_factory).
    pub fn push_boxed_factory(self) -> (stack: FactoryStack<
        C,
        BoxedMakeService<F::Service, F::Error>,
    >) where F: MakeService + Send + Sync + 'static
        ensures
            stack.config() == self.config(),
            forall|old: Option<&F::Service>, result: Result<F::Service, F::Error>| #[trigger]
                stack.factory().makes(old, result) == self.factory().makes(old, result),
    {
        self.into_boxed_factory()
    }

    /// Puts the factory built so far behind an `Arc`, as a factory of its
    /// services and nothing more. What the shared factory builds is what the
    /// factory built so far builds.
    pub fn into_arc_factory(self) -> (stack: FactoryStack<
        C,
        ArcMakeService<F::Service, F::Error>,
    >) where F: MakeService + Send + Sync + 'static
        ensures
            stack.config() == self.config(),
            forall|old: Option<&F::Service>, result: Result<F::Service, F::Error>| #[trigger]
                stack.factory().makes(old, result) == self.factory().makes(old, result),
    {
        let ghost factory = self.inner;
        let boxed: BoxedMakeService<F::Service, F::Error> = Box::new(self.inner);
        proof {
            assert forall|old: Option<&F::Service>, result: Result<F::Service, F::Error>| #[trigger]
                boxed.makes(old, result) == factory.makes(old, result) by {
                assert(factory.dyn_makes(old, result) == factory.makes(old, result));
            }
        }
        let stack = FactoryStack { config: self.config, inner: Arc::new(boxed) };
        proof {
            assert forall|old: Option<&F::Service>, result: Result<F::Service, F::Error>|
                stack.factory().makes(old, result) == factory.makes(old, result) by {
                assert(boxed.makes(old, result) == factory.makes(old, result));
                assert(stack.factory().makes(old, result) == boxed.makes(old, result));
            }
        }
        stack
    }

    /// Puts the factory built so far, whose construction step may suspend,
    /// behind a [`BoxedAsyncMakeService`] in an `Arc`. The wrapper holds that
    /// factory and builds as it does.
    pub fn into_async_arc_factory(self) -> (stack: FactoryStack<
        C,
        Arc<BoxedAsyncMakeService<F::Service, F::Error>>,
    >) where F: AsyncMakeService + Send + Sync + 'static, F::Service: 'static
        ensures
            stack.config() == self.config(),
            stack.factory().holds(self.factory()),
            forall|old: Option<&F::Service>, result: Result<F::Service, F::Error>| #[trigger]
                stack.factory().makes(old, result) == self.factory().makes(old, result),
    {
        FactoryStack { config: self.config, inner: Arc::new(BoxedAsyncMakeService::new(self.inner)) }
    }

    /// The same as [`into_arc_factory`](Self::into_arc_factory).
    pub fn push_arc_factory(self) -> (stack: FactoryStack<
        C,
        ArcMakeService<F::Service, F::Error>,
    >) where F: MakeService + Send + Sync + 'static
        ensures
            stack.config() == self.config(),
            forall|old: Option<&F::Service>, result: Result<F::Service, F::Error>| #[trigger]
                stack.factory().makes(old, result) == self.factory().makes(old, result),
    {
        self.into_arc_factory()
    }

    /// Leaves the stack as it is. It is there to be called, where the call
    /// type-checks only if the stack builds services of requests `R`.
    pub fn check_make_svc<R>(self) -> (stack: Self) where F: MakeService, F::Service: Service<R>
        ensures
            stack == self,
    {
        self
    }

    /// Leaves the stack as it is. It is there to be called, where the call
    /// type-checks only if the stack builds, with a step that may suspend,
    /// services of requests `R`.
    pub fn check_async_make_svc<R>(self) -> (stack: Self) where
        F: AsyncMakeService,
        F::Service: Service<R>,

        ensures
            stack == self,
    {
        self
    }

    /// The factory built so far.
    pub fn into_inner(self) -> (factory: F)
        ensures
            factory == self.factory(),
    {
        self.inner
    }

    /// The configuration and the factory built so far.
    pub fn into_parts(self) -> (parts: (C, F))
        ensures
            parts == (self.config(), self.factory()),
    {
        (self.config, self.inner)
    }
}

impl<C, F> FactoryStack<C, F> where F: MakeService {
    /// Builds a service with the factory built so far, from its
    /// configuration alone.
    pub fn make(&self) -> (result: Result<F::Service, F::Error>)
        ensures
            self.factory().makes(None, result),
    {
        self.inner.make()
    }
}

impl<C, F> FactoryStack<C, F> where F: AsyncMakeService {
    /// Builds a service with the factory built so far, from its
    /// configuration alone, where the construction step may suspend.
    pub fn make_async(&self) -> (result: Result<F::Service, F::Error>)
        ensures
            self.factory().makes(None, result),
    {
        self.inner.make()
    }
}

} // verus!
