use service_async::stack::FactoryStack;
use service_async::types_apart;
use service_async::ArcMakeBoxedService;
use service_async::ArcMakeService;
use service_async::AsyncMakeService;
use service_async::AsyncMakeServiceWrapper;
use service_async::BoxService;
use service_async::BoxServiceFactory;
use service_async::BoxedAsyncMakeService;
use service_async::BoxedMakeBoxedService;
use service_async::BoxedMakeService;
use service_async::BoxedService;
use service_async::MakeService;
use service_async::Service;
use std::sync::atomic::AtomicU64;
use std::sync::atomic::Ordering;

struct Tally {
    seen: AtomicU64,
    step: u64,
}

impl Service<u64> for Tally {
    type Response = u64;
    type Error = String;

    fn call(&self, req: u64) -> Result<u64, String> {
        if req == 0 {
            return Err(String::from("zero"));
        }
        Ok(self.seen.fetch_add(req * self.step, Ordering::SeqCst) + req * self.step)
    }
}

struct Echo {
    prefix: u64,
}

impl Service<u64> for Echo {
    type Response = u64;
    type Error = String;

    fn call(&self, req: u64) -> Result<u64, String> {
        Ok(self.prefix + req)
    }
}

struct TallyFactory {
    step: u64,
    fail: bool,
}

impl MakeService for TallyFactory {
    type Service = Tally;
    type Error = &'static str;

    fn make_via_ref(&self, old: Option<&Tally>) -> Result<Tally, &'static str> {
        if self.fail {
            return Err("cannot build");
        }
        let seen: u64 = match old {
            Some(old) => old.seen.load(Ordering::SeqCst),
            None => 0,
        };
        Ok(Tally { seen: AtomicU64::new(seen), step: self.step })
    }
}

struct EchoFactory {
    prefix: u64,
}

impl MakeService for EchoFactory {
    type Service = Echo;
    type Error = &'static str;

    fn make_via_ref(&self, old: Option<&Echo>) -> Result<Echo, &'static str> {
        Ok(Echo {
            prefix: match old {
                Some(old) => old.prefix,
                None => self.prefix,
            },
        })
    }
}

#[test]
fn downcast_to_the_erased_type_returns_the_fields_unchanged() {
    let boxed: BoxedService<u64, u64, String> = BoxedService::new(Tally { seen: AtomicU64::new(7), step: 3 });
    let tally = boxed.downcast_ref::<Tally>().unwrap();
    assert_eq!(tally.seen.load(Ordering::SeqCst), 7);
    assert_eq!(tally.step, 3);
}

#[test]
fn downcast_to_another_type_returns_none() {
    let boxed: BoxedService<u64, u64, String> = BoxedService::new(Tally { seen: AtomicU64::new(7), step: 3 });
    assert!(boxed.downcast_ref::<Echo>().is_none());
    let boxed: BoxedService<u64, u64, String> = BoxedService::new(Echo { prefix: 1 });
    assert!(boxed.downcast_ref::<Tally>().is_none());
    assert_eq!(boxed.downcast_ref::<Echo>().unwrap().prefix, 1);
}

#[test]
fn downcast_sees_the_state_that_calls_have_left() {
    let boxed: BoxedService<u64, u64, String> = BoxedService::new(Tally { seen: AtomicU64::new(0), step: 2 });
    assert_eq!(boxed.call(1), Ok(2));
    assert_eq!(boxed.call(5), Ok(12));
    assert_eq!(boxed.call(0), Err(String::from("zero")));
    assert_eq!(boxed.downcast_ref::<Tally>().unwrap().seen.load(Ordering::SeqCst), 12);
}

#[test]
fn a_wrapper_of_a_wrapper_is_known_by_the_outer_type_only() {
    let inner: BoxedService<u64, u64, String> = BoxedService::new(Echo { prefix: 4 });
    let outer: BoxedService<u64, u64, String> = BoxedService::new(inner);
    assert!(outer.downcast_ref::<Echo>().is_none());
    let found = outer.downcast_ref::<BoxedService<u64, u64, String>>().unwrap();
    assert_eq!(found.downcast_ref::<Echo>().unwrap().prefix, 4);
    assert_eq!(outer.call(1), Ok(5));
}

#[test]
fn into_boxed_erases_as_new_does() {
    let boxed: BoxedService<u64, u64, String> = Echo { prefix: 10 }.into_boxed();
    assert_eq!(boxed.call(5), Ok(15));
    assert_eq!(boxed.downcast_ref::<Echo>().unwrap().prefix, 10);
}

#[test]
fn an_erased_factory_migrates_state_through_the_wrapper() {
    let factory: BoxServiceFactory<TallyFactory, u64> = BoxServiceFactory::new(TallyFactory { step: 1, fail: false });
    let first = factory.make().unwrap();
    assert_eq!(first.call(4), Ok(4));
    assert_eq!(first.call(5), Ok(9));

    let reconfigured: BoxServiceFactory<TallyFactory, u64> =
        BoxServiceFactory::new(TallyFactory { step: 10, fail: false });
    let second = reconfigured.make_via_ref(Some(&first)).unwrap();
    let tally = second.downcast_ref::<Tally>().unwrap();
    assert_eq!(tally.seen.load(Ordering::SeqCst), 9);
    assert_eq!(tally.step, 10);
    assert_eq!(second.call(1), Ok(19));
}

#[test]
fn an_erased_factory_builds_fresh_when_the_old_service_has_another_type() {
    let old: BoxedService<u64, u64, String> = BoxedService::new(Echo { prefix: 99 });
    let factory: BoxServiceFactory<TallyFactory, u64> = BoxServiceFactory::new(TallyFactory { step: 2, fail: false });
    let built = factory.make_via_ref(Some(&old)).unwrap();
    let tally = built.downcast_ref::<Tally>().unwrap();
    assert_eq!(tally.seen.load(Ordering::SeqCst), 0);
    assert_eq!(tally.step, 2);

    let fresh = factory.make().unwrap();
    let fresh_tally = fresh.downcast_ref::<Tally>().unwrap();
    assert_eq!(fresh_tally.seen.load(Ordering::SeqCst), 0);
    assert_eq!(fresh_tally.step, 2);
}

#[test]
fn an_erased_factory_hands_on_the_failure_of_the_factory_inside() {
    let factory: BoxServiceFactory<TallyFactory, u64> = BoxServiceFactory::new(TallyFactory { step: 2, fail: true });
    assert_eq!(factory.make().err(), Some("cannot build"));
    let old: BoxedService<u64, u64, String> = BoxedService::new(Tally { seen: AtomicU64::new(1), step: 1 });
    assert_eq!(factory.make_via_ref(Some(&old)).err(), Some("cannot build"));
    assert_eq!(factory.inner.step, 2);
}

#[test]
fn an_erased_suspending_factory_builds_as_the_factory_inside() {
    let boxed: BoxedAsyncMakeService<Echo, &'static str> =
        BoxedAsyncMakeService::new(AsyncMakeServiceWrapper(EchoFactory { prefix: 3 }));
    let first = boxed.make().unwrap();
    assert_eq!(first.prefix, 3);
    let old = Echo { prefix: 8 };
    let second = boxed.make_via_ref(Some(&old)).unwrap();
    assert_eq!(second.prefix, 8);
}

#[test]
fn an_erased_suspending_factory_downcasts_to_its_own_type_only() {
    let boxed: BoxedAsyncMakeService<Echo, &'static str> =
        BoxedAsyncMakeService::new(AsyncMakeServiceWrapper(EchoFactory { prefix: 3 }));
    let found = boxed.downcast_ref::<AsyncMakeServiceWrapper<EchoFactory>>().unwrap();
    assert_eq!(found.0.prefix, 3);
    assert!(boxed.downcast_ref::<BoxedAsyncMakeService<Echo, &'static str>>().is_none());
}

#[test]
fn a_stack_erases_services_and_factories() {
    let stack = FactoryStack::new(())
        .replace(TallyFactory { step: 5, fail: false })
        .into_boxed_service::<u64>()
        .check_make_svc::<u64>();
    let svc = stack.make().unwrap();
    assert_eq!(svc.call(2), Ok(10));

    let boxed = FactoryStack::new(())
        .replace(TallyFactory { step: 5, fail: false })
        .into_boxed_service::<u64>()
        .into_boxed_factory();
    let migrated = boxed.into_inner().make_via_ref(Some(&svc)).unwrap();
    assert_eq!(migrated.call(1), Ok(15));

    let shared = FactoryStack::new(()).replace(EchoFactory { prefix: 6 }).into_arc_factory().into_inner();
    let other = shared.clone();
    assert_eq!(shared.make().unwrap().prefix, 6);
    assert_eq!(other.make_via_ref(Some(&Echo { prefix: 1 })).unwrap().prefix, 1);
}

#[test]
fn a_stack_erases_suspending_factories() {
    let stack = FactoryStack::new(7u8)
        .replace(EchoFactory { prefix: 2 })
        .into_async()
        .check_async_make_svc::<u64>()
        .into_async_boxed_factory();
    assert_eq!(stack.make_async().unwrap().prefix, 2);
    let (config, factory) = stack.into_parts();
    assert_eq!(config, 7);
    assert_eq!(factory.make_via_ref(Some(&Echo { prefix: 5 })).unwrap().prefix, 5);

    let shared = FactoryStack::new(())
        .replace(EchoFactory { prefix: 2 })
        .into_async()
        .into_async_arc_factory()
        .into_inner();
    let other = shared.clone();
    assert_eq!(other.make().unwrap().prefix, 2);
    assert!(shared.downcast_ref::<AsyncMakeServiceWrapper<EchoFactory>>().is_some());
}

fn assert_send_sync<T: Send + Sync>(_: &T) {}

#[test]
fn factories_behind_box_and_arc_can_be_shared() {
    let boxed: BoxedMakeService<Echo, &'static str> =
        FactoryStack::new(()).replace(EchoFactory { prefix: 1 }).into_boxed_factory().into_inner();
    assert_send_sync(&boxed);
    assert_eq!(boxed.make().unwrap().prefix, 1);
    let shared: ArcMakeService<Echo, &'static str> =
        FactoryStack::new(()).replace(EchoFactory { prefix: 2 }).push_arc_factory().into_inner();
    assert_send_sync(&shared);
    assert_eq!(shared.make().unwrap().prefix, 2);
    let pushed: BoxedMakeService<Echo, &'static str> =
        FactoryStack::new(()).replace(EchoFactory { prefix: 3 }).push_boxed_factory().into_inner();
    assert_eq!(pushed.make_via_ref(Some(&Echo { prefix: 9 })).unwrap().prefix, 9);
    let service_factory = FactoryStack::new(()).replace(EchoFactory { prefix: 4 }).push_boxed_service::<u64>();
    assert_eq!(service_factory.make().unwrap().call(1), Ok(5));
}

struct Shout;

impl Service<String> for Shout {
    type Response = String;
    type Error = String;

    fn call(&self, req: String) -> Result<String, String> {
        Ok(req.to_uppercase())
    }
}

#[test]
fn downcast_to_a_type_that_is_no_such_service_returns_none() {
    let boxed: BoxedService<u64, u64, String> = BoxedService::new(Echo { prefix: 1 });
    assert!(boxed.downcast_ref::<bool>().is_none());
    assert!(boxed.downcast_ref::<u64>().is_none());
    assert!(boxed.downcast_ref::<Shout>().is_none());
    assert!(boxed.downcast_ref::<Box<Echo>>().is_none());
    assert!(boxed.downcast_ref::<&'static Echo>().is_none());
    assert!(boxed.downcast_ref::<Echo>().is_some());

    let factory: BoxedAsyncMakeService<Echo, &'static str> =
        BoxedAsyncMakeService::new(AsyncMakeServiceWrapper(EchoFactory { prefix: 3 }));
    assert!(factory.downcast_ref::<bool>().is_none());
    assert!(factory.downcast_ref::<EchoFactory>().is_none());
    assert!(factory.downcast_ref::<AsyncMakeServiceWrapper<TallyFactory>>().is_none());
}

#[test]
fn types_are_apart_exactly_when_they_differ() {
    let echo = Echo { prefix: 1 };
    let other = Echo { prefix: 2 };
    let tally = Tally { seen: AtomicU64::new(0), step: 1 };
    assert!(types_apart(&echo, &tally));
    assert!(types_apart(&tally, &echo));
    assert!(types_apart(&echo, &true));
    assert!(types_apart(&echo, &Box::new(Echo { prefix: 1 })));
    assert!(types_apart(&1u8, &1u16));
    assert!(!types_apart(&echo, &other));
    assert!(!types_apart(&echo, &echo));
    assert!(!types_apart(&1u8, &2u8));
}

#[test]
fn downcast_agrees_with_the_comparison_of_types() {
    let boxed: BoxedService<u64, u64, String> = BoxedService::new(Echo { prefix: 1 });
    let echo = Echo { prefix: 0 };
    let tally = Tally { seen: AtomicU64::new(0), step: 1 };
    assert_eq!(boxed.downcast_ref::<Echo>().is_none(), types_apart(&echo, &echo));
    assert_eq!(boxed.downcast_ref::<Tally>().is_none(), types_apart(&echo, &tally));
}

#[test]
fn the_factory_inside_can_be_borrowed() {
    let factory: BoxServiceFactory<EchoFactory, u64> = BoxServiceFactory::new(EchoFactory { prefix: 12 });
    assert_eq!(factory.inner_ref().prefix, 12);
    assert_eq!(factory.inner.prefix, 12);
}

#[test]
fn factories_of_erased_services_stand_behind_box_and_arc() {
    let boxed: BoxedMakeBoxedService<u64, u64, String, &'static str> = FactoryStack::new(())
        .replace(EchoFactory { prefix: 1 })
        .into_boxed_service::<u64>()
        .into_boxed_factory()
        .into_inner();
    let first = boxed.make().unwrap();
    assert_eq!(first.call(1), Ok(2));
    let shared: ArcMakeBoxedService<u64, u64, String, &'static str> = FactoryStack::new(())
        .replace(EchoFactory { prefix: 5 })
        .into_boxed_service::<u64>()
        .into_arc_factory()
        .into_inner();
    let second = shared.make_via_ref(Some(&first)).unwrap();
    assert_eq!(second.call(1), Ok(2));
    assert_eq!(shared.make().unwrap().call(1), Ok(6));
}
