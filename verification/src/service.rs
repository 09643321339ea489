use vstd::prelude::*;

verus! {

/// A request handler.
///
/// `call` takes the handler by shared reference, so one handler can serve any
/// number of callers. A handler that keeps state behind that reference is a
/// relation between requests and results rather than a function of the
/// request, and that relation is what `responds` states.
pub trait Service<Request> {
    /// What a successful call hands back.
    type Response;

    /// What a failed call hands back.
    type Error;

    /// The requests this handler can be called with: all of them, unless an
    /// implementation says otherwise. Handlers assembled from closures
    /// inherit the closures' own preconditions here.
    open spec fn accepts(&self, req: Request) -> bool {
        true
    }

    /// Whether `result` is an outcome that `call(req)` may produce. An
    /// implementation that does not say is taken to promise nothing.
    open spec fn responds(&self, req: Request, result: Result<Self::Response, Self::Error>) -> bool {
        true
    }

    /// Processes one request.
    fn call(&self, req: Request) -> (result: Result<Self::Response, Self::Error>)
        requires
            self.accepts(req),
        ensures
            self.responds(req, result),
    ;
}

} // verus!
