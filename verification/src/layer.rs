use crate::make_service::AsyncMakeServiceWrapper;
use std::marker::PhantomData;
use vstd::prelude::*;

verus! {

/// A transform from an inner factory to the factory that wraps it.
///
/// The configuration is handed to every layer by reference and is never
/// changed by one.
pub trait FactoryLayer<C, F> {
    /// The factory this layer produces.
    type Factory;

    /// The configurations and inner factories this layer can be applied to:
    /// all of them, unless an implementation says otherwise.
    open spec fn can_layer(&self, config: &C, inner: F) -> bool {
        true
    }

    /// Whether `outer` is a factory that `layer(config, inner)` may produce.
    /// An implementation that does not say is taken to promise nothing.
    open spec fn layers(&self, config: &C, inner: F, outer: Self::Factory) -> bool {
        true
    }

    /// Wraps `inner`.
    fn layer(&self, config: &C, inner: F) -> (outer: Self::Factory)
        requires
            self.can_layer(config, inner),
        ensures
            self.layers(config, inner, outer),
    ;
}

/// Makes a layer of a closure that takes the configuration and the inner
/// factory.
pub fn layer_fn<C, FN>(f: FN) -> (layer: LayerFn<C, FN>)
    ensures
        layer.func() == f,
{
    LayerFn { f, marker: PhantomData }
}

/// A layer that is a closure.
pub struct LayerFn<C, FN> {
    f: FN,
    marker: PhantomData<C>,
}

impl<C, FN> LayerFn<C, FN> {
    /// The closure this layer applies.
    pub closed spec fn func(&self) -> FN {
        self.f
    }
}

impl<C, F, FN, O> FactoryLayer<C, F> for LayerFn<C, FN> where FN: Fn(&C, F) -> O {
    type Factory = O;

    open spec fn can_layer(&self, config: &C, inner: F) -> bool {
        call_requires(self.func(), (config, inner))
    }

    open spec fn layers(&self, config: &C, inner: F, outer: O) -> bool {
        call_ensures(self.func(), (config, inner), outer)
    }

    fn layer(&self, config: &C, inner: F) -> (outer: O) {
        (self.f)(config, inner)
    }
}

/// The layer that presents the factory below it as an
/// [`AsyncMakeService`](crate::AsyncMakeService).
pub struct LayerAsync;

impl<C, F> FactoryLayer<C, F> for LayerAsync {
    type Factory = AsyncMakeServiceWrapper<F>;

    open spec fn can_layer(&self, config: &C, inner: F) -> bool {
        true
    }

    open spec fn layers(&self, config: &C, inner: F, outer: AsyncMakeServiceWrapper<F>) -> bool {
        outer == AsyncMakeServiceWrapper(inner)
    }

    fn layer(&self, _config: &C, inner: F) -> (outer: AsyncMakeServiceWrapper<F>) {
        AsyncMakeServiceWrapper(inner)
    }
}

} // verus!
