use service_async::layer::layer_fn;
use service_async::layer::FactoryLayer;
use service_async::stack::FactoryStack;
use service_async::BoxedService;
use service_async::MakeService;
use service_async::Service;
use std::convert::Infallible;
use std::sync::atomic::AtomicUsize;
use std::sync::atomic::Ordering;
use std::sync::Arc;

struct SvcA {
    pass_flag: bool,
    not_pass_flag: bool,
}

impl Service<()> for SvcA {
    type Response = ();
    type Error = Infallible;

    fn call(&self, _req: ()) -> Result<(), Infallible> {
        Ok(())
    }
}

struct SvcAFactory {
    init_flag: bool,
}

struct InitFlag(bool);

impl MakeService for SvcAFactory {
    type Service = SvcA;
    type Error = Infallible;

    fn make_via_ref(&self, old: Option<&SvcA>) -> Result<SvcA, Infallible> {
        Ok(match old {
            Some(r) => SvcA { pass_flag: r.pass_flag, not_pass_flag: self.init_flag },
            None => SvcA { pass_flag: self.init_flag, not_pass_flag: self.init_flag },
        })
    }
}

struct SvcB<T> {
    counter: AtomicUsize,
    inner: T,
}

impl<T> Service<usize> for SvcB<T>
where
    T: Service<(), Error = Infallible>,
{
    type Response = usize;
    type Error = Infallible;

    fn call(&self, req: usize) -> Result<usize, Infallible> {
        let old: usize = self.counter.fetch_add(req, Ordering::AcqRel);
        let new: usize = old + req;
        self.inner.call(())?;
        Ok(new)
    }
}

struct SvcBFactory<T>(T);

impl<T> MakeService for SvcBFactory<T>
where
    T: MakeService<Error = Infallible>,
{
    type Service = SvcB<T::Service>;
    type Error = Infallible;

    fn make_via_ref(&self, old: Option<&Self::Service>) -> Result<Self::Service, Infallible> {
        Ok(match old {
            Some(r) => SvcB {
                counter: AtomicUsize::new(r.counter.load(Ordering::Acquire)),
                inner: self.0.make_via_ref(Some(&r.inner))?,
            },
            None => SvcB { counter: AtomicUsize::new(0), inner: self.0.make()? },
        })
    }
}

fn svc_a_layer() -> impl FactoryLayer<InitFlag, (), Factory = SvcAFactory> {
    layer_fn(|c: &InitFlag, ()| SvcAFactory { init_flag: c.0 })
}

fn svc_b_layer<C, F>() -> impl FactoryLayer<C, F, Factory = SvcBFactory<F>> {
    layer_fn(|_: &C, inner: F| SvcBFactory(inner))
}

fn chain(flag: bool) -> FactoryStack<InitFlag, SvcBFactory<SvcAFactory>> {
    FactoryStack::new(InitFlag(flag)).push(svc_a_layer()).push(svc_b_layer())
}

#[test]
fn three_calls_accumulate_a_running_total() {
    let svc = chain(false).make().unwrap();
    assert_eq!(svc.call(1), Ok(1));
    assert_eq!(svc.counter.load(Ordering::Acquire), 1);
    assert_eq!(svc.call(2), Ok(3));
    assert_eq!(svc.counter.load(Ordering::Acquire), 3);
    assert_eq!(svc.call(3), Ok(6));
    assert_eq!(svc.counter.load(Ordering::Acquire), 6);
}

#[test]
fn a_fresh_chain_takes_every_field_from_its_configuration() {
    let svc = chain(false).make().unwrap();
    assert_eq!(svc.counter.load(Ordering::Acquire), 0);
    assert!(!svc.inner.pass_flag);
    assert!(!svc.inner.not_pass_flag);
    let svc = chain(true).make().unwrap();
    assert_eq!(svc.counter.load(Ordering::Acquire), 0);
    assert!(svc.inner.pass_flag);
    assert!(svc.inner.not_pass_flag);
}

#[test]
fn migration_keeps_the_total_and_takes_the_new_flag() {
    let svc = chain(false).make().unwrap();
    svc.call(1).unwrap();
    svc.call(2).unwrap();
    svc.call(3).unwrap();

    let new_svc = chain(true).into_inner().make_via_ref(Some(&svc)).unwrap();
    assert_eq!(new_svc.counter.load(Ordering::Acquire), 6);
    assert!(!new_svc.inner.pass_flag);
    assert!(new_svc.inner.not_pass_flag);
    assert_eq!(new_svc.call(4), Ok(10));
    assert_eq!(svc.counter.load(Ordering::Acquire), 6);
}

#[test]
fn make_is_make_via_ref_of_none() {
    let factory = chain(true).into_inner();
    let made = factory.make().unwrap();
    let made_via_ref = factory.make_via_ref(None).unwrap();
    assert_eq!(made.counter.load(Ordering::Acquire), made_via_ref.counter.load(Ordering::Acquire));
    assert_eq!(made.inner.pass_flag, made_via_ref.inner.pass_flag);
    assert_eq!(made.inner.not_pass_flag, made_via_ref.inner.not_pass_flag);

    let through_stack = chain(true).make().unwrap();
    assert_eq!(through_stack.counter.load(Ordering::Acquire), 0);
    assert!(through_stack.inner.pass_flag);
}

#[test]
fn an_erased_service_answers_as_the_service_it_was_made_from() {
    let direct = SvcB { counter: AtomicUsize::new(5), inner: SvcA { pass_flag: true, not_pass_flag: true } };
    let erased: BoxedService<usize, usize, Infallible> = BoxedService::new(SvcB {
        counter: AtomicUsize::new(5),
        inner: SvcA { pass_flag: true, not_pass_flag: true },
    });
    let requests: [usize; 4] = [1, 2, 3, 40];
    for req in requests {
        assert_eq!(erased.call(req), direct.call(req));
    }
    assert_eq!(erased.call(0), Ok(51));
}

#[test]
fn a_shared_service_loses_no_update() {
    let svc = Arc::new(chain(false).make().unwrap());
    let handles: Vec<Arc<SvcB<SvcA>>> = (0..100).map(|_| Arc::clone(&svc)).collect();
    for handle in &handles {
        handle.call(1).unwrap();
    }
    assert_eq!(svc.counter.load(Ordering::Acquire), 100);
    assert_eq!(svc.call(0), Ok(100));
}
