use crate::layer::FactoryLayer;
use crate::make_service::MakeService;
use crate::service::Service;
use vstd::prelude::*;

verus! {

/// One of two alternatives.
///
/// An `Either` of two services is a service, of two factories a factory, of
/// two layers a layer: each delegates to the alternative that is present and
/// tags what comes back with the side it came from.
#[derive(Debug, Clone)]
pub enum Either<A, B> {
    Left(A),
    Right(B),
}

/// The left alternative of `old`, if `old` is there and is a left one.
pub open spec fn left_of<A, B>(old: Option<&Either<A, B>>) -> Option<&A> {
    match old {
        Some(Either::Left(a)) => Some(a),
        _ => None,
    }
}

/// The right alternative of `old`, if `old` is there and is a right one.
pub open spec fn right_of<A, B>(old: Option<&Either<A, B>>) -> Option<&B> {
    match old {
        Some(Either::Right(b)) => Some(b),
        _ => None,
    }
}

/// An optional layer: present, it wraps the inner factory and the result is
/// tagged left; absent, the inner factory passes through tagged right.
impl<C, F, T> FactoryLayer<C, F> for Option<T> where T: FactoryLayer<C, F> {
    type Factory = Either<T::Factory, F>;

    open spec fn can_layer(&self, config: &C, inner: F) -> bool {
        match self {
            Some(fl) => fl.can_layer(config, inner),
            None => true,
        }
    }

    open spec fn layers(&self, config: &C, inner: F, outer: Either<T::Factory, F>) -> bool {
        match self {
            Some(fl) => match outer {
                Either::Left(o) => fl.layers(config, inner, o),
                Either::Right(_) => false,
            },
            None => outer == Either::<T::Factory, F>::Right(inner),
        }
    }

    fn layer(&self, config: &C, inner: F) -> (outer: Either<T::Factory, F>) {
        match self {
            Some(fl) => Either::Left(fl.layer(config, inner)),
            None => Either::Right(inner),
        }
    }
}

/// A choice of two layers: the one present wraps the inner factory, and the
/// result carries its tag.
impl<C, F, FLA, FLB> FactoryLayer<C, F> for Either<FLA, FLB> where
    FLA: FactoryLayer<C, F>,
    FLB: FactoryLayer<C, F>,
 {
    type Factory = Either<FLA::Factory, FLB::Factory>;

    open spec fn can_layer(&self, config: &C, inner: F) -> bool {
        match self {
            Either::Left(fl) => fl.can_layer(config, inner),
            Either::Right(fl) => fl.can_layer(config, inner),
        }
    }

    open spec fn layers(&self, config: &C, inner: F, outer: Either<
        FLA::Factory,
        FLB::Factory,
    >) -> bool {
        match self {
            Either::Left(fl) => match outer {
                Either::Left(o) => fl.layers(config, inner, o),
                Either::Right(_) => false,
            },
            Either::Right(fl) => match outer {
                Either::Left(_) => false,
                Either::Right(o) => fl.layers(config, inner, o),
            },
        }
    }

    fn layer(&self, config: &C, inner: F) -> (outer: Either<FLA::Factory, FLB::Factory>) {
        match self {
            Either::Left(fl) => Either::Left(fl.layer(config, inner)),
            Either::Right(fl) => Either::Right(fl.layer(config, inner)),
        }
    }
}

/// A choice of two factories.
///
/// The factory present builds. It is handed the old service only where that
/// one carries the same tag; an old service of the other tag is set aside and
/// the new one is built as if there had been none. Service and error both
/// carry the tag of the factory that produced them.
impl<A, B> MakeService for Either<A, B> where A: MakeService, B: MakeService {
    type Service = Either<A::Service, B::Service>;

    type Error = Either<A::Error, B::Error>;

    open spec fn makes(&self, old: Option<&Self::Service>, result: Result<
        Self::Service,
        Self::Error,
    >) -> bool {
        match self {
            Either::Left(f) => match result {
                Ok(Either::Left(svc)) => f.makes(left_of(old), Ok(svc)),
                Err(Either::Left(e)) => f.makes(left_of(old), Err(e)),
                _ => false,
            },
            Either::Right(f) => match result {
                Ok(Either::Right(svc)) => f.makes(right_of(old), Ok(svc)),
                Err(Either::Right(e)) => f.makes(right_of(old), Err(e)),
                _ => false,
            },
        }
    }

    fn make_via_ref(&self, old: Option<&Self::Service>) -> (result: Result<
        Self::Service,
        Self::Error,
    >) {
        match self {
            Either::Left(f) => {
                let made = match old {
                    Some(Either::Left(left_svc)) => f.make_via_ref(Some(left_svc)),
                    _ => f.make(),
                };
                match made {
                    Ok(svc) => Ok(Either::Left(svc)),
                    Err(e) => Err(Either::Left(e)),
                }
            },
            Either::Right(f) => {
                let made = match old {
                    Some(Either::Right(right_svc)) => f.make_via_ref(Some(right_svc)),
                    _ => f.make(),
                };
                match made {
                    Ok(svc) => Ok(Either::Right(svc)),
                    Err(e) => Err(Either::Right(e)),
                }
            },
        }
    }
}

/// A choice of two services with one response type. A call goes to the
/// service present; an error carries the tag of the service it came from.
impl<A, B, R> Service<R> for Either<A, B> where
    A: Service<R>,
    B: Service<R, Response = A::Response>,
 {
    type Response = A::Response;

    type Error = Either<A::Error, B::Error>;

    open spec fn accepts(&self, req: R) -> bool {
        match self {
            Either::Left(s) => s.accepts(req),
            Either::Right(s) => s.accepts(req),
        }
    }

    open spec fn responds(&self, req: R, result: Result<Self::Response, Self::Error>) -> bool {
        match self {
            Either::Left(s) => match result {
                Ok(resp) => s.responds(req, Ok(resp)),
                Err(Either::Left(e)) => s.responds(req, Err(e)),
                Err(Either::Right(_)) => false,
            },
            Either::Right(s) => match result {
                Ok(resp) => s.responds(req, Ok(resp)),
                Err(Either::Left(_)) => false,
                Err(Either::Right(e)) => s.responds(req, Err(e)),
            },
        }
    }

    fn call(&self, req: R) -> (result: Result<Self::Response, Self::Error>) {
        match self {
            Either::Left(s) => match s.call(req) {
                Ok(resp) => Ok(resp),
                Err(e) => Err(Either::Left(e)),
            },
            Either::Right(s) => match s.call(req) {
                Ok(resp) => Ok(resp),
                Err(e) => Err(Either::Right(e)),
            },
        }
    }
}

impl<T> Either<T, T> {
    /// The value held, whichever side it is on.
    pub fn into_inner(self) -> (inner: T)
        ensures
            inner == match self {
                Either::Left(t) => t,
                Either::Right(t) => t,
            },
    {
        match self {
            Either::Left(t) => t,
            Either::Right(t) => t,
        }
    }
}

/// Whether a factory and a service carry the same tag.
pub open spec fn same_side<A, B, S, T>(factory: &Either<A, B>, svc: &Either<S, T>) -> bool {
    (factory is Left) == (svc is Left)
}

/// A factory handed an old service of the other tag builds exactly what it
/// builds with no old service at all: nothing of the old one is carried over.
pub proof fn lemma_other_side_builds_fresh<A: MakeService, B: MakeService>(
    factory: Either<A, B>,
    old: Either<A::Service, B::Service>,
    result: Result<Either<A::Service, B::Service>, Either<A::Error, B::Error>>,
)
    requires
        !same_side(&factory, &old),
    ensures
        factory.makes(Some(&old), result) == factory.makes(None, result),
{
}

/// A left factory handed an old left service hands that service's content to
/// the factory it holds, and tags what comes back as left.
pub proof fn lemma_left_migrates<A: MakeService, B: MakeService>(
    f: A,
    old: A::Service,
    made: Result<A::Service, A::Error>,
)
    ensures
        Either::<A, B>::Left(f).makes(
            Some(&Either::Left(old)),
            match made {
                Ok(svc) => Ok(Either::Left(svc)),
                Err(e) => Err(Either::Left(e)),
            },
        ) == f.makes(Some(&old), made),
{
}

/// A right factory handed an old right service hands that service's content
/// to the factory it holds, and tags what comes back as right.
pub proof fn lemma_right_migrates<A: MakeService, B: MakeService>(
    f: B,
    old: B::Service,
    made: Result<B::Service, B::Error>,
)
    ensures
        Either::<A, B>::Right(f).makes(
            Some(&Either::Right(old)),
            match made {
                Ok(svc) => Ok(Either::Right(svc)),
                Err(e) => Err(Either::Right(e)),
            },
        ) == f.makes(Some(&old), made),
{
}

/// What a factory builds carries the factory's own tag, on success and on
/// failure alike.
pub proof fn lemma_result_keeps_side<A: MakeService, B: MakeService>(
    factory: Either<A, B>,
    old: Option<&Either<A::Service, B::Service>>,
    result: Result<Either<A::Service, B::Service>, Either<A::Error, B::Error>>,
)
    requires
        factory.makes(old, result),
    ensures
        match result {
            Ok(svc) => same_side(&factory, &svc),
            Err(e) => same_side(&factory, &e),
        },
{
}

} // verus!
