use crate::make_service::AsyncMakeService;
use crate::make_service::MakeService;
use crate::service::Service;
use std::any::Any;
use std::any::TypeId;
use std::marker::PhantomData;
use vstd::prelude::*;

verus! {

/// A borrowed value together with the identity of its type, as
/// `&dyn std::any::Any` holds them. Nothing is stated of what is inside: a value
/// of this type is known only by the value it was borrowed from (`borrows`),
/// and is only ever handed from `as_any` to a downcast.
#[verifier::external_body]
struct AnyRef<'a> {
    value: &'a dyn Any,
}

/// Borrows `t` as a `&dyn std::any::Any`, the coercion that records the type
/// of `t` beside the reference. Nothing is claimed of the result.
#[verifier::external_body]
fn any_ref<'a, T: 'static>(t: &'a T) -> AnyRef<'a> {
    AnyRef { value: t }
}

/// Whether `any` is `t` borrowed as a `&dyn std::any::Any`: a value that
/// `any_ref(t)` returns.
spec fn borrows<T: 'static>(any: AnyRef<'_>, t: &T) -> bool {
    call_ensures(any_ref::<T>, (t,), any)
}

/// Whether `T` and `U` are kept apart: nothing that is borrowed with its type
/// beside it is both a `T` and a `U`. Two types are apart exactly when they
/// are different types; [`types_apart`] tells which, from the types alone.
pub closed spec fn apart<T: 'static, U: 'static>() -> bool {
    forall|any: AnyRef, t: &T, u: &U| !(#[trigger] borrows::<T>(any, t) && #[trigger] borrows::<U>(any, u))
}

/// `std::any::TypeId::of::<T>() != std::any::TypeId::of::<U>()`: the
/// identities of two types differ exactly when the types do. Stated over
/// `apart`: where they differ nothing borrowed is of both types, and where
/// they are equal `t` borrowed is.
#[verifier::external_body]
fn type_ids_differ<T: 'static, U: 'static>(t: &T, u: &U) -> (differ: bool)
    ensures
        match differ {
            true => apart::<T, U>(),
            false => !apart::<T, U>(),
        },
{
    TypeId::of::<T>() != TypeId::of::<U>()
}

/// Whether `T` and `U` are different types. The two references only show
/// that each type has a value; what they refer to is not looked at.
pub fn types_apart<T: 'static, U: 'static>(t: &T, u: &U) -> (differ: bool)
    ensures
        differ == apart::<T, U>(),
{
    type_ids_differ(t, u)
}

/// What a [`BoxedService`] keeps of the service inside it: the ability to call
/// it, and a handle by which its type can be told again.
trait ErasedService<Request, Response, E> {
    spec fn erased_accepts(&self, req: Request) -> bool;

    spec fn erased_responds(&self, req: Request, result: Result<Response, E>) -> bool;

    fn call_erased(&self, req: Request) -> (result: Result<Response, E>)
        requires
            self.erased_accepts(req),
        ensures
            self.erased_responds(req, result),
    ;

    /// Whether `any` is the service itself, borrowed under its own type.
    spec fn borrowed_as(&self, any: AnyRef<'_>) -> bool;

    /// The service itself, borrowed with the identity of its type beside it.
    fn as_any(&self) -> (any: AnyRef<'_>)
        ensures
            self.borrowed_as(any),
    ;
}

impl<Request, S: Service<Request> + 'static> ErasedService<Request, S::Response, S::Error> for S {
    spec fn erased_accepts(&self, req: Request) -> bool {
        self.accepts(req)
    }

    spec fn erased_responds(&self, req: Request, result: Result<S::Response, S::Error>) -> bool {
        self.responds(req, result)
    }

    fn call_erased(&self, req: Request) -> (result: Result<S::Response, S::Error>) {
        self.call(req)
    }

    spec fn borrowed_as(&self, any: AnyRef<'_>) -> bool {
        borrows::<S>(any, self)
    }

    fn as_any(&self) -> (any: AnyRef<'_>) {
        any_ref(self)
    }
}

/// A service of any type behind one fixed type.
///
/// The wrapper owns the service. It is built from a service whose type is
/// known, and from then on the service and the means to call it are one
/// private value: there is no way to reach one without the other, nor to
/// exchange either. Calls go to the service inside; `downcast_ref` hands the
/// service back under its own type, and under no other.
#[verifier::reject_recursive_types(Request)]
#[verifier::reject_recursive_types(Response)]
#[verifier::reject_recursive_types(E)]
pub struct BoxedService<Request, Response, E> {
    svc: Box<dyn ErasedService<Request, Response, E>>,
}

impl<Request, Response, E> BoxedService<Request, Response, E> {
    /// The service inside as it is seen when borrowed with its type beside
    /// it.
    closed spec fn seen(&self) -> AnyRef<'_> {
        choose|any: AnyRef| self.svc.borrowed_as(any)
    }

    /// Whether the service inside is `t`: a value of type `T`, equal to `t`.
    pub closed spec fn holds<T: 'static>(&self, t: T) -> bool {
        &&& self.svc.borrowed_as(self.seen())
        &&& borrows::<T>(self.seen(), &t)
    }

    /// Whether the service inside is of type `T`.
    pub open spec fn holds_type<T: 'static>(&self) -> bool {
        exists|t: T| self.holds(t)
    }

    /// Whether the service inside is `t` and no other value of type `T`.
    pub open spec fn holds_only<T: 'static>(&self, t: T) -> bool {
        &&& self.holds(t)
        &&& forall|u: T| self.holds(u) ==> u == t
    }

    /// Erases the type of `s`. The wrapper holds `s` and answers as `s` does.
    pub fn new<S>(s: S) -> (boxed: Self) where
        S: Service<Request, Response = Response, Error = E> + 'static,

        ensures
            boxed.holds(s),
            forall|req: Request| #[trigger] boxed.accepts(req) == s.accepts(req),
            forall|req: Request, result: Result<Response, E>| #[trigger]
                boxed.responds(req, result) == s.responds(req, result),
    {
        let boxed = BoxedService { svc: Box::new(s) };
        // The service as it is seen from outside the wrapper: what `holds` speaks of.
        let any = boxed.svc.as_any();
        proof {
            assert(boxed.svc.borrowed_as(any));
            assert(s.borrowed_as(boxed.seen()) == borrows::<S>(boxed.seen(), &s));
            assert forall|req: Request| boxed.accepts(req) == s.accepts(req) by {
                assert(s.erased_accepts(req) == s.accepts(req));
            }
            assert forall|req: Request, result: Result<Response, E>|
                boxed.responds(req, result) == s.responds(req, result) by {
                assert(s.erased_responds(req, result) == s.responds(req, result));
            }
        }
        boxed
    }

    /// `std::any::Any::downcast_ref` on the service inside, borrowed as
    /// `any`: the service as a `T` where `T` is the type it was erased from,
    /// and `None` where it is not. Stated over `holds`: what comes back is the
    /// one value of type `T` that is held, and `None` comes back only where no
    /// value of type `T` is held.
    #[verifier::external_body]
    fn downcast_any<'a, T: 'static>(&'a self, any: AnyRef<'a>) -> (found: Option<&'a T>)
        requires
            self.svc.borrowed_as(any),
        ensures
            match found {
                Some(t) => self.holds_only(*t),
                None => !self.holds_type::<T>(),
            },
    {
        any.value.downcast_ref::<T>()
    }

    /// The service inside, if its type is `T`.
    ///
    /// The type recorded when the service was erased is compared with `T`
    /// before anything is handed out, so a wrong `T` yields `None` and never a
    /// value read as the wrong type.
    pub fn downcast_ref<T: 'static>(&self) -> (found: Option<&T>)
        ensures
            match found {
                Some(t) => self.holds_only(*t),
                None => !self.holds_type::<T>(),
            },
    {
        let any = self.svc.as_any();
        self.downcast_any::<T>(any)
    }

    /// A wrapper that holds a value of type `T` holds none of another type
    /// `U`: `downcast_ref::<U>()` on it returns `None`.
    pub proof fn lemma_holds_one_type<T: 'static, U: 'static>(self, t: T)
        requires
            self.holds(t),
            apart::<T, U>(),
        ensures
            !self.holds_type::<U>(),
    {
        assert forall|u: U| !self.holds(u) by {
            if self.holds(u) {
                assert(borrows::<T>(self.seen(), &t));
                assert(borrows::<U>(self.seen(), &u));
            }
        }
    }
}

impl<Request, Response, E> Service<Request> for BoxedService<Request, Response, E> {
    type Response = Response;

    type Error = E;

    closed spec fn accepts(&self, req: Request) -> bool {
        self.svc.erased_accepts(req)
    }

    closed spec fn responds(&self, req: Request, result: Result<Response, E>) -> bool {
        self.svc.erased_responds(req, result)
    }

    fn call(&self, req: Request) -> (result: Result<Response, E>) {
        self.svc.call_erased(req)
    }
}

/// Services that can be put behind a [`BoxedService`]: all of them that own
/// what they hold.
pub trait BoxService<Request, Response, E>: Sized {
    /// Whether `boxed` is what `into_boxed` may return.
    spec fn boxes_into(self, boxed: &BoxedService<Request, Response, E>) -> bool;

    /// Erases the type of `self`.
    fn into_boxed(self) -> (boxed: BoxedService<Request, Response, E>)
        ensures
            self.boxes_into(&boxed),
    ;
}

impl<T, Request, Response, E> BoxService<Request, Response, E> for T where
    T: Service<Request, Response = Response, Error = E> + 'static,
 {
    open spec fn boxes_into(self, boxed: &BoxedService<Request, Response, E>) -> bool {
        &&& boxed.holds(self)
        &&& forall|req: Request| #[trigger] boxed.accepts(req) == self.accepts(req)
        &&& forall|req: Request, result: Result<Response, E>| #[trigger]
            boxed.responds(req, result) == self.responds(req, result)
    }

    fn into_boxed(self) -> (boxed: BoxedService<Request, Response, E>) {
        BoxedService::new(self)
    }
}

/// A factory of [`BoxedService`]s, made of a factory of services of any one
/// type.
pub struct BoxServiceFactory<F, Req> {
    pub inner: F,
    _marker: PhantomData<Req>,
}

/// Whether `prior` is what a factory of `S` gets to see of `old`: the service
/// inside `old` where there is an `old` and it holds an `S`, and nothing
/// otherwise.
pub open spec fn recovered<Req, S: Service<Req> + 'static>(
    old: Option<&BoxedService<Req, S::Response, S::Error>>,
    prior: Option<&S>,
) -> bool {
    match old {
        Some(boxed) => match prior {
            Some(svc) => boxed.holds_only(*svc),
            None => !boxed.holds_type::<S>(),
        },
        None => prior is None,
    }
}

/// Whether `result` is `made` with its service, if there is one, erased.
pub open spec fn boxed_result<Req, S: Service<Req> + 'static, ME>(
    made: Result<S, ME>,
    result: Result<BoxedService<Req, S::Response, S::Error>, ME>,
) -> bool {
    match made {
        Ok(svc) => match result {
            Ok(boxed) => svc.boxes_into(&boxed),
            Err(_) => false,
        },
        Err(e) => result == Err::<BoxedService<Req, S::Response, S::Error>, ME>(e),
    }
}

impl<F, Req> BoxServiceFactory<F, Req> {
    /// The factory inside: the value of the field `inner`.
    pub closed spec fn factory(&self) -> F {
        self.inner
    }

    /// The factory of erased services that builds with `inner`.
    pub fn new(inner: F) -> (factory: Self)
        ensures
            factory.factory() == inner,
    {
        BoxServiceFactory { inner, _marker: PhantomData }
    }

    /// The factory inside, borrowed.
    pub fn inner_ref(&self) -> (inner: &F)
        ensures
            *inner == self.factory(),
    {
        &self.inner
    }
}

/// A factory of erased services, handed an old service that holds none of the
/// type it builds, builds exactly what it builds with no old service at all.
pub proof fn lemma_unrecovered_builds_fresh<F, Req>(
    factory: BoxServiceFactory<F, Req>,
    old: BoxedService<
        Req,
        <F::Service as Service<Req>>::Response,
        <F::Service as Service<Req>>::Error,
    >,
    result: Result<
        BoxedService<Req, <F::Service as Service<Req>>::Response, <F::Service as Service<Req>>::Error>,
        F::Error,
    >,
) where F: MakeService, F::Service: Service<Req> + 'static, Req: 'static
    requires
        !old.holds_type::<F::Service>(),
    ensures
        factory.makes(Some(&old), result) == factory.makes(None, result),
{
    if factory.makes(Some(&old), result) {
        let (prior, made) = choose|prior: Option<&F::Service>, made: Result<F::Service, F::Error>|
            {
                &&& recovered::<Req, F::Service>(Some(&old), prior)
                &&& #[trigger] factory.factory().makes(prior, made)
                &&& boxed_result::<Req, F::Service, F::Error>(made, result)
            };
        assert(prior is None);
        assert(recovered::<Req, F::Service>(None, prior));
    }
    if factory.makes(None, result) {
        let (prior, made) = choose|prior: Option<&F::Service>, made: Result<F::Service, F::Error>|
            {
                &&& recovered::<Req, F::Service>(None, prior)
                &&& #[trigger] factory.factory().makes(prior, made)
                &&& boxed_result::<Req, F::Service, F::Error>(made, result)
            };
        assert(recovered::<Req, F::Service>(Some(&old), prior));
    }
}

/// A factory of erased services, handed an old service that was erased from
/// a type other than the one it builds, builds exactly what it builds with no
/// old service at all.
pub proof fn lemma_other_type_builds_fresh<F, Req, U: 'static>(
    factory: BoxServiceFactory<F, Req>,
    old: BoxedService<
        Req,
        <F::Service as Service<Req>>::Response,
        <F::Service as Service<Req>>::Error,
    >,
    held: U,
    result: Result<
        BoxedService<Req, <F::Service as Service<Req>>::Response, <F::Service as Service<Req>>::Error>,
        F::Error,
    >,
) where F: MakeService, F::Service: Service<Req> + 'static, Req: 'static
    requires
        old.holds(held),
        apart::<U, F::Service>(),
    ensures
        factory.makes(Some(&old), result) == factory.makes(None, result),
{
    old.lemma_holds_one_type::<U, F::Service>(held);
    lemma_unrecovered_builds_fresh(factory, old, result);
}

/// A factory of erased services, handed an old service that holds `svc` and
/// nothing else of that type, builds what the factory inside builds from
/// `svc`, erased.
pub proof fn lemma_recovered_migrates<F, Req>(
    factory: BoxServiceFactory<F, Req>,
    old: BoxedService<
        Req,
        <F::Service as Service<Req>>::Response,
        <F::Service as Service<Req>>::Error,
    >,
    svc: F::Service,
    result: Result<
        BoxedService<Req, <F::Service as Service<Req>>::Response, <F::Service as Service<Req>>::Error>,
        F::Error,
    >,
) where F: MakeService, F::Service: Service<Req> + 'static, Req: 'static
    requires
        old.holds_only(svc),
    ensures
        factory.makes(Some(&old), result) <==> exists|made: Result<F::Service, F::Error>|
            #[trigger] factory.factory().makes(Some(&svc), made) && boxed_result::<
                Req,
                F::Service,
                F::Error,
            >(made, result),
{
    if factory.makes(Some(&old), result) {
        let (prior, made) = choose|prior: Option<&F::Service>, made: Result<F::Service, F::Error>|
            {
                &&& recovered::<Req, F::Service>(Some(&old), prior)
                &&& #[trigger] factory.factory().makes(prior, made)
                &&& boxed_result::<Req, F::Service, F::Error>(made, result)
            };
        assert(prior == Some(&svc));
        assert(factory.factory().makes(Some(&svc), made));
    }
    if exists|made: Result<F::Service, F::Error>|
        #[trigger] factory.factory().makes(Some(&svc), made) && boxed_result::<
            Req,
            F::Service,
            F::Error,
        >(made, result) {
        let made = choose|made: Result<F::Service, F::Error>|
            #[trigger] factory.factory().makes(Some(&svc), made) && boxed_result::<
                Req,
                F::Service,
                F::Error,
            >(made, result);
        assert(recovered::<Req, F::Service>(Some(&old), Some(&svc)));
    }
}

impl<F, Req> MakeService for BoxServiceFactory<F, Req> where
    F: MakeService,
    F::Service: Service<Req> + 'static,
    Req: 'static,
 {
    type Service = BoxedService<
        Req,
        <F::Service as Service<Req>>::Response,
        <F::Service as Service<Req>>::Error,
    >;

    type Error = F::Error;

    /// The factory inside builds from what can be recovered of `old`, and the
    /// service it builds is erased. An `old` that holds a service of another
    /// type counts as no `old`. A failure of the factory inside is handed on
    /// as it is.
    open spec fn makes(&self, old: Option<&Self::Service>, result: Result<
        Self::Service,
        Self::Error,
    >) -> bool {
        exists|prior: Option<&F::Service>, made: Result<F::Service, F::Error>|
            {
                &&& recovered::<Req, F::Service>(old, prior)
                &&& #[trigger] self.factory().makes(prior, made)
                &&& boxed_result::<Req, F::Service, F::Error>(made, result)
            }
    }

    fn make_via_ref(&self, old: Option<&Self::Service>) -> (result: Result<
        Self::Service,
        Self::Error,
    >) {
        let ghost mut prior: Option<&F::Service> = None;
        let made = match old {
            Some(boxed) => {
                let found = boxed.downcast_ref();
                proof {
                    prior = found;
                }
                self.inner.make_via_ref(found)
            },
            None => self.inner.make(),
        };
        let ghost outcome = made;
        let result = match made {
            Ok(svc) => Ok(svc.into_boxed()),
            Err(e) => Err(e),
        };
        proof {
            assert(recovered::<Req, F::Service>(old, prior));
            assert(self.factory().makes(prior, outcome));
            assert(boxed_result::<Req, F::Service, F::Error>(outcome, result));
        }
        result
    }
}

impl<F, Req> AsyncMakeService for BoxServiceFactory<F, Req> where
    F: AsyncMakeService,
    F::Service: Service<Req> + 'static,
    Req: 'static,
 {
    type Service = BoxedService<
        Req,
        <F::Service as Service<Req>>::Response,
        <F::Service as Service<Req>>::Error,
    >;

    type Error = F::Error;

    /// As for the factory that does not suspend.
    open spec fn makes(&self, old: Option<&Self::Service>, result: Result<
        Self::Service,
        Self::Error,
    >) -> bool {
        exists|prior: Option<&F::Service>, made: Result<F::Service, F::Error>|
            {
                &&& recovered::<Req, F::Service>(old, prior)
                &&& #[trigger] self.factory().makes(prior, made)
                &&& boxed_result::<Req, F::Service, F::Error>(made, result)
            }
    }

    fn make_via_ref(&self, old: Option<&Self::Service>) -> (result: Result<
        Self::Service,
        Self::Error,
    >) {
        let ghost mut prior: Option<&F::Service> = None;
        let made = match old {
            Some(boxed) => {
                let found = boxed.downcast_ref();
                proof {
                    prior = found;
                }
                self.inner.make_via_ref(found)
            },
            None => self.inner.make(),
        };
        let ghost outcome = made;
        let result = match made {
            Ok(svc) => Ok(svc.into_boxed()),
            Err(e) => Err(e),
        };
        proof {
            assert(recovered::<Req, F::Service>(old, prior));
            assert(self.factory().makes(prior, outcome));
            assert(boxed_result::<Req, F::Service, F::Error>(outcome, result));
        }
        result
    }
}

/// What a [`BoxedAsyncMakeService`] keeps of the factory inside it: the
/// ability to build with it, and a handle by which its type can be told
/// again.
trait ErasedFactory<S, E> {
    spec fn erased_makes(&self, old: Option<&S>, result: Result<S, E>) -> bool;

    fn make_erased(&self, old: Option<&S>) -> (result: Result<S, E>)
        ensures
            self.erased_makes(old, result),
    ;

    /// Whether `any` is the factory itself, borrowed under its own type.
    spec fn borrowed_as(&self, any: AnyRef<'_>) -> bool;

    /// The factory itself, borrowed with the identity of its type beside it.
    fn as_any(&self) -> (any: AnyRef<'_>)
        ensures
            self.borrowed_as(any),
    ;
}

impl<AMS: AsyncMakeService + 'static> ErasedFactory<AMS::Service, AMS::Error> for AMS {
    spec fn erased_makes(&self, old: Option<&AMS::Service>, result: Result<
        AMS::Service,
        AMS::Error,
    >) -> bool {
        self.makes(old, result)
    }

    fn make_erased(&self, old: Option<&AMS::Service>) -> (result: Result<
        AMS::Service,
        AMS::Error,
    >) {
        self.make_via_ref(old)
    }

    spec fn borrowed_as(&self, any: AnyRef<'_>) -> bool {
        borrows::<AMS>(any, self)
    }

    fn as_any(&self) -> (any: AnyRef<'_>) {
        any_ref(self)
    }
}

/// A factory of any type behind one fixed type, for factories whose
/// construction step may suspend.
///
/// The wrapper owns the factory, and keeps it and the means to build with it
/// as one private value. Building goes to the factory inside; `downcast_ref`
/// hands the factory back under its own type, and under no other.
#[verifier::reject_recursive_types(S)]
#[verifier::reject_recursive_types(E)]
pub struct BoxedAsyncMakeService<S, E> {
    svc: Box<dyn ErasedFactory<S, E>>,
}

impl<S, E> BoxedAsyncMakeService<S, E> {
    /// The factory inside as it is seen when borrowed with its type beside
    /// it.
    closed spec fn seen(&self) -> AnyRef<'_> {
        choose|any: AnyRef| self.svc.borrowed_as(any)
    }

    /// Whether the factory inside is `t`: a value of type `T`, equal to `t`.
    pub closed spec fn holds<T: 'static>(&self, t: T) -> bool {
        &&& self.svc.borrowed_as(self.seen())
        &&& borrows::<T>(self.seen(), &t)
    }

    /// Whether the factory inside is of type `T`.
    pub open spec fn holds_type<T: 'static>(&self) -> bool {
        exists|t: T| self.holds(t)
    }

    /// Whether the factory inside is `t` and no other value of type `T`.
    pub open spec fn holds_only<T: 'static>(&self, t: T) -> bool {
        &&& self.holds(t)
        &&& forall|u: T| self.holds(u) ==> u == t
    }

    /// Erases the type of `ams`. The wrapper holds `ams` and builds as `ams`
    /// does.
    pub fn new<AMS>(ams: AMS) -> (boxed: Self) where
        AMS: AsyncMakeService<Service = S, Error = E> + 'static,
        S: 'static,

        ensures
            boxed.holds(ams),
            forall|old: Option<&S>, result: Result<S, E>| #[trigger]
                boxed.makes(old, result) == ams.makes(old, result),
    {
        let boxed = BoxedAsyncMakeService { svc: Box::new(ams) };
        // The factory as it is seen from outside the wrapper: what `holds` speaks of.
        let any = boxed.svc.as_any();
        proof {
            assert(boxed.svc.borrowed_as(any));
            assert(ams.borrowed_as(boxed.seen()) == borrows::<AMS>(boxed.seen(), &ams));
            assert forall|old: Option<&S>, result: Result<S, E>|
                boxed.makes(old, result) == ams.makes(old, result) by {
                assert(ams.erased_makes(old, result) == ams.makes(old, result));
            }
        }
        boxed
    }

    /// `std::any::Any::downcast_ref` on the factory inside, borrowed as
    /// `any`: the factory as a `T` where `T` is the type it was erased from,
    /// and `None` where it is not. Stated over `holds`: what comes back is the
    /// one value of type `T` that is held, and `None` comes back only where no
    /// value of type `T` is held.
    #[verifier::external_body]
    fn downcast_any<'a, T: 'static>(&'a self, any: AnyRef<'a>) -> (found: Option<&'a T>)
        requires
            self.svc.borrowed_as(any),
        ensures
            match found {
                Some(t) => self.holds_only(*t),
                None => !self.holds_type::<T>(),
            },
    {
        any.value.downcast_ref::<T>()
    }

    /// The factory inside, if its type is `T`.
    pub fn downcast_ref<T: 'static>(&self) -> (found: Option<&T>)
        ensures
            match found {
                Some(t) => self.holds_only(*t),
                None => !self.holds_type::<T>(),
            },
    {
        let any = self.svc.as_any();
        self.downcast_any::<T>(any)
    }

    /// A wrapper that holds a value of type `T` holds none of another type
    /// `U`: `downcast_ref::<U>()` on it returns `None`.
    pub proof fn lemma_holds_one_type<T: 'static, U: 'static>(self, t: T)
        requires
            self.holds(t),
            apart::<T, U>(),
        ensures
            !self.holds_type::<U>(),
    {
        assert forall|u: U| !self.holds(u) by {
            if self.holds(u) {
                assert(borrows::<T>(self.seen(), &t));
                assert(borrows::<U>(self.seen(), &u));
            }
        }
    }
}

impl<S, E> AsyncMakeService for BoxedAsyncMakeService<S, E> {
    type Service = S;

    type Error = E;

    closed spec fn makes(&self, old: Option<&S>, result: Result<S, E>) -> bool {
        self.svc.erased_makes(old, result)
    }

    fn make_via_ref(&self, old: Option<&S>) -> (result: Result<S, E>) {
        self.svc.make_erased(old)
    }
}

} // verus!
