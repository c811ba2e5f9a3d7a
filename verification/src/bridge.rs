//! The cross-runtime asynchronous completion protocol.
//!
//! The host calls a synchronous entry point; the native side obtains a fresh
//! pending-operation handle from the host registry, hands the work to the
//! thread pool, and returns the handle at once.  When the work finishes, the
//! executing worker retrieves the pending-operation object by handle and
//! completes it exactly once: with the success payload, or exceptionally
//! with the failure envelope.  This module holds the verified state machine
//! of that protocol and the process-wide context around it.

use vstd::prelude::*;
use vstd::string::StringExecFns;

use crate::error::Error;
use crate::logger::{CallState, LogMethods};

verus! {

/// The native-side view of one pending operation, keyed by its handle.
#[derive(Debug, Clone)]
pub enum OpState {
    /// The pending-operation object is registered with the host; no work has
    /// been submitted yet.
    Registered,
    /// The unit of async work for `url` has been submitted to the pool.
    Running { url: String },
    /// The operation completed with a success payload.
    CompletedOk { value: String },
    /// The operation completed exceptionally with a failure envelope.
    CompletedErr { error: Error },
}

impl OpState {
    /// The operation has been completed, one way or the other.
    pub open spec fn is_completed(self) -> bool {
        self is CompletedOk || self is CompletedErr
    }
}

/// The completed state an operation reaches for a given outcome of its work.
pub open spec fn completed_op(result: Result<String, Error>) -> OpState {
    match result {
        Ok(value) => OpState::CompletedOk { value },
        Err(error) => OpState::CompletedErr { error },
    }
}

/// The operation states after completing handle `h` with `result`, all
/// other handles untouched.
pub open spec fn completed_ops(
    ops: Seq<OpState>,
    h: int,
    result: Result<String, Error>,
) -> Seq<OpState> {
    ops.update(h - 1, completed_op(result))
}

/// The pending-operation registry as the native side observes it.  Handles
/// are minted in order, starting at 1, and are never reused; the slot of
/// handle `h` is entry `h - 1`.
#[derive(Debug)]
pub struct AsyncRegistry {
    /// State of every operation ever registered, in minting order.
    pub ops: Vec<OpState>,
}

impl AsyncRegistry {
    /// The handle the next registration will mint.
    pub open spec fn minted(self) -> int {
        self.ops@.len() as int + 1
    }

    /// `h` has been minted and registered.
    pub open spec fn is_registered(self, h: int) -> bool {
        1 <= h <= self.ops@.len()
    }

    /// The state of the operation behind handle `h`.
    pub open spec fn state_of(self, h: int) -> OpState {
        self.ops@[h - 1]
    }

    /// A completion of `h` is permitted: the handle is registered, its work
    /// is running, and it has not been completed before.
    pub open spec fn can_complete(self, h: int) -> bool {
        self.is_registered(h) && self.state_of(h) is Running
    }

    /// Handle `h` has been completed.
    pub open spec fn is_completed(self, h: int) -> bool {
        self.is_registered(h) && self.state_of(h).is_completed()
    }

    /// An empty registry: nothing has been registered yet.
    pub fn new() -> (r: AsyncRegistry)
        ensures
            r.ops@.len() == 0,
    {
        AsyncRegistry { ops: Vec::new() }
    }

    /// Register a pending operation with the host: mints a fresh handle,
    /// never seen before, whose operation starts out registered and not yet
    /// running.  No earlier operation is touched.
    pub fn register(&mut self) -> (h: i64)
        requires
            old(self).ops@.len() < i64::MAX,
        ensures
            h == old(self).minted(),
            !old(self).is_registered(h as int),
            final(self).is_registered(h as int),
            final(self).ops@ == old(self).ops@.push(OpState::Registered),
            final(self).state_of(h as int) == OpState::Registered,
    {
        self.ops.push(OpState::Registered);
        self.ops.len() as i64
    }

    /// Mark the operation behind `h` as running: its unit of async work has
    /// been handed to the pool, capturing `url` as the workload input.
    pub fn start(&mut self, h: i64, url: String)
        requires
            old(self).is_registered(h as int),
            old(self).state_of(h as int) is Registered,
        ensures
            final(self).ops@ == old(self).ops@.update(h - 1, OpState::Running { url }),
    {
        let n = self.ops.len();
        proof {
            assert(h - 1 < n);
        }
        let idx = (h - 1) as usize;
        self.ops[idx] = OpState::Running { url };
    }

    /// Retrieve the pending operation registered under `h`.  Only a handle
    /// whose registration has already happened can be retrieved; looking up
    /// an unknown handle is a native-side defect, excluded here rather than
    /// recovered from.
    pub fn get_future(&self, h: i64) -> (op: &OpState)
        requires
            self.is_registered(h as int),
        ensures
            *op == self.state_of(h as int),
    {
        let n = self.ops.len();
        proof {
            assert(h - 1 < n);
        }
        &self.ops[(h - 1) as usize]
    }

    /// Complete the operation behind `h` with the outcome of its work: with
    /// the success payload if the work succeeded, exceptionally with the
    /// failure envelope if it failed.  Exactly this handle changes; after
    /// the call no further completion of `h` is permitted.
    pub fn complete(&mut self, h: i64, result: Result<String, Error>)
        requires
            old(self).can_complete(h as int),
        ensures
            final(self).ops@ == completed_ops(old(self).ops@, h as int, result),
            final(self).is_completed(h as int),
            final(self).state_of(h as int) == completed_op(result),
            !final(self).can_complete(h as int),
            final(self).ops@.len() == old(self).ops@.len(),
            forall|h2: int|
                old(self).is_registered(h2) && h2 != h ==> final(self).state_of(h2) == old(
                    self,
                ).state_of(h2),
    {
        let n = self.ops.len();
        proof {
            assert(h - 1 < n);
        }
        let idx = (h - 1) as usize;
        let op = match result {
            Ok(value) => OpState::CompletedOk { value },
            Err(error) => OpState::CompletedErr { error },
        };
        self.ops[idx] = op;
    }
}

/// Relies on `num_cpus::get`: the number of available logical processors of
/// the current system, documented to always be at least 1.
#[verifier::external_body]
fn available_cpus() -> (n: usize)
    ensures
        1 <= n,
{
    num_cpus::get()
}

/// The answer to an initialization request, decided before any pool or
/// call-site construction is directed.
#[derive(Debug)]
pub enum InitDecision {
    /// Initialization already happened: the request is a silent no-op.
    AlreadyInitialized,
    /// The requested size is a user error; `message` is reported to the
    /// host as a thrown exception, and the system stays uninitialized.
    Reject { message: String },
    /// Go ahead: build a pool with `workers` worker threads, resolve the
    /// call state on the current (host-bound) thread, and hand the outcome
    /// to [`Context::complete_init`].
    Proceed { workers: usize },
}

/// The process-wide state of the bridge, constructed once and passed to
/// every component that needs it: the one-time initialization flag, the
/// pool size, the logging call state, and the pending-operation registry.
#[derive(Debug)]
pub struct Context {
    /// One-time initialization has completed.
    pub initialized: bool,
    /// Number of worker threads of the pool; meaningful once initialized.
    pub runtime_size: usize,
    /// The logging call state; present once initialized.
    pub call_state: Option<CallState>,
    /// The pending-operation registry as the native side observes it.
    pub registry: AsyncRegistry,
}

impl Context {
    /// An initialized context carries a pool of at least one worker and a
    /// well-formed call state.
    pub open spec fn wf(self) -> bool {
        &&& (self.initialized ==> self.runtime_size >= 1 && self.call_state is Some)
        &&& (match self.call_state {
            Some(cs) => cs.wf(),
            None => true,
        })
    }

    /// An initialization request with this size would be allowed to build
    /// the pool and resolve the call state.
    pub open spec fn init_allows_proceed(self, runtime_size: int) -> bool {
        !self.initialized && runtime_size >= 0
    }

    /// A fresh, uninitialized context.
    pub fn new() -> (c: Context)
        ensures
            !c.initialized,
            c.registry.ops@.len() == 0,
            c.wf(),
    {
        Context {
            initialized: false,
            runtime_size: 0,
            call_state: None,
            registry: AsyncRegistry::new(),
        }
    }

    /// Answer an initialization request.  A second request is a silent
    /// no-op; a negative size is rejected as a user error and leaves the
    /// system uninitialized; size 0 stands for the number of available
    /// processors.  The decision itself changes nothing: only
    /// [`Context::complete_init`] moves the context to its initialized
    /// state.
    pub fn init(&self, runtime_size: i32) -> (d: InitDecision)
        ensures
            (d is AlreadyInitialized) <==> self.initialized,
            (d matches InitDecision::Reject { message } ==> !self.initialized && runtime_size < 0
                && message@ == "`runtime_size` cannot be less than 0"@),
            !self.initialized && runtime_size < 0 ==> d is Reject,
            (d matches InitDecision::Proceed { workers } ==> self.init_allows_proceed(
                runtime_size as int,
            ) && workers >= 1 && (runtime_size > 0 ==> workers == runtime_size)),
            self.init_allows_proceed(runtime_size as int) ==> d is Proceed,
    {
        if self.initialized {
            InitDecision::AlreadyInitialized
        } else if runtime_size < 0 {
            InitDecision::Reject {
                message: String::from_str("`runtime_size` cannot be less than 0"),
            }
        } else if runtime_size == 0 {
            InitDecision::Proceed { workers: available_cpus() }
        } else {
            InitDecision::Proceed { workers: runtime_size as usize }
        }
    }

    /// Finish initialization after the pool of `workers` threads was built
    /// and the call state's method resolution was attempted.  On successful
    /// resolution the context becomes initialized, with a fresh, empty
    /// logger cache; on failed resolution nothing changes and the failure
    /// text is reported to the host as a thrown exception.
    pub fn complete_init(&mut self, workers: usize, resolution: Result<LogMethods, Error>) -> (r:
        Result<(), String>)
        requires
            !old(self).initialized,
            workers >= 1,
            old(self).wf(),
        ensures
            final(self).wf(),
            final(self).registry == old(self).registry,
            (resolution matches Ok(methods) ==> {
                &&& r is Ok
                &&& final(self).initialized
                &&& final(self).runtime_size == workers
                &&& final(self).call_state matches Some(cs) && cs.methods == methods
                    && cs.loggers@.len() == 0
            }),
            (resolution matches Err(e) ==> (r matches Err(m) && m@ == e.describe_spec())
                && *final(self) == *old(self)),
    {
        match resolution {
            Ok(methods) => {
                self.call_state = Some(CallState::try_new(methods));
                self.runtime_size = workers;
                self.initialized = true;
                Ok(())
            },
            Err(e) => Err(e.describe()),
        }
    }

    /// The synchronous entry point of the demonstration workload: register a
    /// pending operation with the host, mark its fetch of `url` as handed to
    /// the pool, and return the fresh handle at once — the outcome of the
    /// work is never awaited here.
    pub fn hello(&mut self, url: String) -> (h: i64)
        requires
            old(self).initialized,
            old(self).wf(),
            old(self).registry.ops@.len() < i64::MAX,
        ensures
            final(self).wf(),
            h == old(self).registry.minted(),
            !old(self).registry.is_registered(h as int),
            final(self).registry.ops@ == old(self).registry.ops@.push(OpState::Running { url }),
            final(self).registry.state_of(h as int) == (OpState::Running { url }),
            final(self).initialized == old(self).initialized,
            final(self).runtime_size == old(self).runtime_size,
            final(self).call_state == old(self).call_state,
    {
        let h = self.registry.register();
        self.registry.start(h, url);
        proof {
            assert(self.registry.ops@ =~= old(self).registry.ops@.push(
                OpState::Running { url },
            ));
        }
        h
    }

    /// Deliver the outcome of the work behind `id` to the host: retrieve the
    /// pending-operation object and complete it, with the success payload or
    /// exceptionally with the failure envelope — exactly one of the two,
    /// exactly once, and no other handle is affected.
    pub fn complete_future(&mut self, id: i64, result: Result<String, Error>)
        requires
            old(self).initialized,
            old(self).wf(),
            old(self).registry.can_complete(id as int),
        ensures
            final(self).wf(),
            final(self).registry.ops@ == completed_ops(
                old(self).registry.ops@,
                id as int,
                result,
            ),
            final(self).registry.state_of(id as int) == completed_op(result),
            final(self).registry.is_completed(id as int),
            !final(self).registry.can_complete(id as int),
            forall|h2: int|
                old(self).registry.is_registered(h2) && h2 != id ==> final(self).registry.state_of(
                    h2,
                ) == old(self).registry.state_of(h2),
            final(self).registry.ops@.len() == old(self).registry.ops@.len(),
            final(self).initialized == old(self).initialized,
            final(self).runtime_size == old(self).runtime_size,
            final(self).call_state == old(self).call_state,
    {
        let retrieved = self.registry.get_future(id);
        proof {
            assert(retrieved is Running);
        }
        self.registry.complete(id, result);
    }
}

/// Initialization is idempotent: once a context is initialized, a later
/// request — whatever size it asks for — is answered `AlreadyInitialized`
/// and can never direct the construction of a second pool or a
/// re-resolution of the cached call state.
pub proof fn lemma_init_idempotent(c: Context, runtime_size: int)
    requires
        c.initialized,
    ensures
        !c.init_allows_proceed(runtime_size),
{
}

/// Compose the text of the exception thrown to the host for a fatal
/// native-side error.  When a host-side exception was already pending, its
/// class name and message are appended, so no diagnostic detail is lost
/// across the boundary.
pub fn exception_message(msg: String, pending: Option<(String, String)>) -> (r: String)
    ensures
        pending is None ==> r@ == msg@,
        (pending matches Some(p) ==> r@ == msg@ + ". Java exception occurred: "@ + p.0@ + ": "@
            + p.1@),
{
    match pending {
        None => msg,
        Some(p) => {
            let ghost m0 = msg@;
            let mut r = msg;
            r.append(". Java exception occurred: ");
            r.append(p.0.as_str());
            r.append(": ");
            r.append(p.1.as_str());
            proof {
                assert(r@ =~= m0 + ". Java exception occurred: "@ + p.0@ + ": "@ + p.1@);
            }
            r
        },
    }
}

/// Registration strictly precedes retrieval: before its registration a
/// handle is unknown to the registry and cannot be retrieved, and the
/// registration itself is what makes it retrievable.
pub proof fn lemma_register_precedes_retrieval(pre: AsyncRegistry, post: AsyncRegistry, h: i64)
    requires
        h as int == pre.minted(),
        post.ops@ == pre.ops@.push(OpState::Registered),
    ensures
        !pre.is_registered(h as int),
        post.is_registered(h as int),
{
}

/// Handles are never shared: a registration mints a handle distinct from
/// every handle registered before it; in particular two registrations,
/// one after the other, mint two distinct handles.
pub proof fn lemma_handles_distinct(pre: AsyncRegistry, mid: AsyncRegistry, h1: i64, h2: i64)
    requires
        h1 as int == pre.minted(),
        mid.ops@ == pre.ops@.push(OpState::Registered),
        h2 as int == mid.minted(),
    ensures
        h1 != h2,
        forall|h: int| pre.is_registered(h) ==> h != h1,
{
}

/// Every operation is completed exactly once.  Completing a running handle
/// records exactly one of the two outcomes — the success payload when the
/// work succeeded, the failure envelope when it failed, never both — and
/// leaves the handle forever ineligible for a second completion of either
/// kind.
pub proof fn lemma_exactly_one_completion(
    pre: AsyncRegistry,
    post: AsyncRegistry,
    h: i64,
    result: Result<String, Error>,
)
    requires
        pre.can_complete(h as int),
        post.ops@ == completed_ops(pre.ops@, h as int, result),
    ensures
        post.is_completed(h as int),
        (post.state_of(h as int) is CompletedOk) <==> result is Ok,
        (post.state_of(h as int) is CompletedErr) <==> result is Err,
        !(post.state_of(h as int) is CompletedOk && post.state_of(h as int) is CompletedErr),
        !post.can_complete(h as int),
{
}

/// A handle, once completed, can never satisfy the precondition of another
/// completion: both completion operations are disabled for it.
pub proof fn lemma_no_second_completion(r: AsyncRegistry, h: i64)
    requires
        r.is_completed(h as int),
    ensures
        !r.can_complete(h as int),
{
}

/// Concurrent operations are independent: completing one handle leaves the
/// state — in particular the payload — of every other handle exactly as it
/// was.
pub proof fn lemma_independent_completion(
    pre: AsyncRegistry,
    post: AsyncRegistry,
    h1: i64,
    h2: i64,
    result: Result<String, Error>,
)
    requires
        pre.can_complete(h1 as int),
        post.ops@ == completed_ops(pre.ops@, h1 as int, result),
        pre.is_registered(h2 as int),
        h2 != h1,
    ensures
        post.is_registered(h2 as int),
        post.state_of(h2 as int) == pre.state_of(h2 as int),
{
}

} // verus!
