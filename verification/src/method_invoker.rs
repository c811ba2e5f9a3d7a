//! Cached references to the fixed host call sites.
//!
//! The native side calls a small, statically known set of host entry points
//! from pool worker threads.  Resolving an entry point from a worker thread
//! is not guaranteed to succeed (the thread may see a different classloader
//! than the host's own calling thread), so each call site is resolved once,
//! at load time, on a host-bound thread, and the resolved reference is kept
//! for the life of the process.  This module holds the verified bookkeeping
//! of that table: a site, once resolved, is never replaced.  The invocation
//! itself executes arbitrary host code and is performed by the
//! foreign-function glue around the library, with the references these
//! tokens stand for.

use vstd::prelude::*;

verus! {

/// The declared result category of a host call site.
#[derive(Debug, Clone, Copy, PartialEq, Eq, Structural)]
pub enum ReturnType {
    /// The call returns a host object reference.
    Object,
    /// The call returns a 64-bit integer.
    Long,
    /// The call returns nothing.
    Void,
}

/// A resolved reference to one static host call site: a token for the pinned
/// owning class, a token for the resolved method identifier, and the declared
/// return-type tag.  Read-only after construction, so any thread may use it
/// without further synchronization.
#[derive(Debug, Clone, Copy, PartialEq, Eq, Structural)]
pub struct StaticMethodInvoker {
    /// Token standing for the globally pinned class reference.
    pub class: u64,
    /// Token standing for the resolved static method identifier.
    pub method_id: u64,
    /// Declared return-type tag of the call site.
    pub ret: ReturnType,
}

impl StaticMethodInvoker {
    /// Package a freshly resolved call site.
    pub fn try_new(class: u64, method_id: u64, ret: ReturnType) -> (r: StaticMethodInvoker)
        ensures
            r.class == class,
            r.method_id == method_id,
            r.ret == ret,
    {
        StaticMethodInvoker { class, method_id, ret }
    }
}

/// The process-wide table of the three fixed call sites: the logger factory,
/// the pending-operation registration point, and the retrieval-by-handle
/// point.  Starts empty at load; each slot is filled at most once.
#[derive(Debug, Clone, Copy, PartialEq, Eq, Structural)]
pub struct MethodTable {
    /// The "get logger instance" call site, once resolved.
    pub logger: Option<StaticMethodInvoker>,
    /// The "register pending operation" call site, once resolved.
    pub register: Option<StaticMethodInvoker>,
    /// The "retrieve pending operation by handle" call site, once resolved.
    pub get_future: Option<StaticMethodInvoker>,
}

impl MethodTable {
    /// All three fixed call sites are resolved; only then can the bridge
    /// operate.
    pub open spec fn resolved(self) -> bool {
        self.logger is Some && self.register is Some && self.get_future is Some
    }

    /// The table as it stands after an attempt to install a resolution of the
    /// logger-factory site: a slot already filled keeps its first resolution.
    pub open spec fn with_logger(self, inv: StaticMethodInvoker) -> MethodTable {
        if self.logger is Some {
            self
        } else {
            MethodTable { logger: Some(inv), register: self.register, get_future: self.get_future }
        }
    }

    /// As [`Self::with_logger`], for the registration site.
    pub open spec fn with_register(self, inv: StaticMethodInvoker) -> MethodTable {
        if self.register is Some {
            self
        } else {
            MethodTable { logger: self.logger, register: Some(inv), get_future: self.get_future }
        }
    }

    /// As [`Self::with_logger`], for the retrieval-by-handle site.
    pub open spec fn with_get_future(self, inv: StaticMethodInvoker) -> MethodTable {
        if self.get_future is Some {
            self
        } else {
            MethodTable { logger: self.logger, register: self.register, get_future: Some(inv) }
        }
    }

    /// The empty table, as it stands before load-time resolution.
    pub fn new() -> (t: MethodTable)
        ensures
            t.logger is None,
            t.register is None,
            t.get_future is None,
    {
        MethodTable { logger: None, register: None, get_future: None }
    }

    /// Install a resolution of the logger-factory site.  If the site is
    /// already resolved the table is unchanged: among racing first-time
    /// resolvers a single winner publishes, and later installs are no-ops.
    pub fn install_logger(&mut self, inv: StaticMethodInvoker)
        ensures
            *final(self) == old(self).with_logger(inv),
    {
        if self.logger.is_none() {
            self.logger = Some(inv);
        }
    }

    /// Install a resolution of the registration site; once-only, as
    /// [`Self::install_logger`].
    pub fn install_register(&mut self, inv: StaticMethodInvoker)
        ensures
            *final(self) == old(self).with_register(inv),
    {
        if self.register.is_none() {
            self.register = Some(inv);
        }
    }

    /// Install a resolution of the retrieval-by-handle site; once-only, as
    /// [`Self::install_logger`].
    pub fn install_get_future(&mut self, inv: StaticMethodInvoker)
        ensures
            *final(self) == old(self).with_get_future(inv),
    {
        if self.get_future.is_none() {
            self.get_future = Some(inv);
        }
    }
}

/// The statically known description of one host call site, as it must be
/// resolved at load time: owning class, member name, member signature, and
/// declared return type.
#[derive(Debug, Clone, Copy)]
pub struct CallSite {
    pub class_name: &'static str,
    pub method_name: &'static str,
    pub signature: &'static str,
    pub ret: ReturnType,
}

/// The "get logger instance" call site: the host's logger factory.
pub fn logger_site() -> (s: CallSite)
    ensures
        s.class_name@ == "io/greptime/demo/utils/Logger"@,
        s.method_name@ == "getLogger"@,
        s.signature@ == "(Ljava/lang/String;)Lio/greptime/demo/utils/Logger;"@,
        s.ret == ReturnType::Object,
{
    CallSite {
        class_name: "io/greptime/demo/utils/Logger",
        method_name: "getLogger",
        signature: "(Ljava/lang/String;)Lio/greptime/demo/utils/Logger;",
        ret: ReturnType::Object,
    }
}

/// The "register pending operation" call site: mints a fresh handle.
pub fn register_site() -> (s: CallSite)
    ensures
        s.class_name@ == "io/greptime/demo/utils/AsyncRegistry"@,
        s.method_name@ == "register"@,
        s.signature@ == "()J"@,
        s.ret == ReturnType::Long,
{
    CallSite {
        class_name: "io/greptime/demo/utils/AsyncRegistry",
        method_name: "register",
        signature: "()J",
        ret: ReturnType::Long,
    }
}

/// The "retrieve pending operation by handle" call site.
pub fn get_future_site() -> (s: CallSite)
    ensures
        s.class_name@ == "io/greptime/demo/utils/AsyncRegistry"@,
        s.method_name@ == "get"@,
        s.signature@ == "(J)Ljava/util/concurrent/CompletableFuture;"@,
        s.ret == ReturnType::Object,
{
    CallSite {
        class_name: "io/greptime/demo/utils/AsyncRegistry",
        method_name: "get",
        signature: "(J)Ljava/util/concurrent/CompletableFuture;",
        ret: ReturnType::Object,
    }
}

/// A call site, once resolved, is never re-resolved: whatever a second
/// installation offers, each slot keeps the resolution that won the first
/// installation, and a table never loses a resolved slot.
pub proof fn lemma_resolution_is_final(
    t: MethodTable,
    a: StaticMethodInvoker,
    b: StaticMethodInvoker,
)
    ensures
        t.with_logger(a).with_logger(b) == t.with_logger(a),
        t.with_register(a).with_register(b) == t.with_register(a),
        t.with_get_future(a).with_get_future(b) == t.with_get_future(a),
        t.with_logger(a).logger is Some,
        t.with_register(a).register is Some,
        t.with_get_future(a).get_future is Some,
{
}

} // verus!
