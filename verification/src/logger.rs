//! Log delegation: forwards structured log records to per-source host-side
//! logger objects.
//!
//! Records whose source belongs to the cross-boundary call machinery itself
//! are dropped, so a log call can never trigger a cross-boundary call that
//! logs in turn.  For every other source a host logger object is resolved at
//! most once and cached; the record's message is formatted as
//! `"{file}:{line} - {message}"` and dispatched to the cached object's
//! level-specific method.

use vstd::prelude::*;
use vstd::string::StrSliceExecFns;
use vstd::string::StringExecFns;

verus! {

/// Severity of a log record; selects which host logger method receives it.
#[derive(Debug, Clone, Copy, PartialEq, Eq, Structural)]
pub enum Level {
    Error,
    Warn,
    Info,
    Debug,
    Trace,
}

/// A structured log record as the native side sees it: the source name it
/// was emitted under, its severity, the source location, and the formatted
/// message text.
#[derive(Debug, Clone)]
pub struct LogRecord {
    /// Name of the log source (the emitting component).
    pub target: String,
    /// Severity of the record.
    pub level: Level,
    /// Source file of the emitting call, when known.
    pub file: Option<String>,
    /// Source line of the emitting call, when known.
    pub line: Option<u32>,
    /// The record's message text.
    pub message: String,
}

/// Tokens for the five level-specific methods of a host logger object,
/// resolved once when the call state is constructed.
#[derive(Debug, Clone, Copy, PartialEq, Eq, Structural)]
pub struct LogMethods {
    pub error: u64,
    pub warn: u64,
    pub info: u64,
    pub debug: u64,
    pub trace: u64,
}

impl LogMethods {
    /// The method token a record of the given severity dispatches to.
    pub open spec fn find_method_spec(self, level: Level) -> u64 {
        match level {
            Level::Error => self.error,
            Level::Warn => self.warn,
            Level::Info => self.info,
            Level::Debug => self.debug,
            Level::Trace => self.trace,
        }
    }

    /// Select the host method for a record of the given severity.
    pub fn find_method(&self, level: Level) -> (m: u64)
        ensures
            m == self.find_method_spec(level),
    {
        match level {
            Level::Error => self.error,
            Level::Warn => self.warn,
            Level::Info => self.info,
            Level::Debug => self.debug,
            Level::Trace => self.trace,
        }
    }
}

/// The member name of the host logger method for each severity; each takes
/// a single string argument.  These five members must be resolvable when
/// the call state is constructed.
pub fn level_method_name(level: Level) -> (s: &'static str)
    ensures
        level == Level::Error ==> s@ == "error"@,
        level == Level::Warn ==> s@ == "warn"@,
        level == Level::Info ==> s@ == "info"@,
        level == Level::Debug ==> s@ == "debug"@,
        level == Level::Trace ==> s@ == "trace"@,
{
    match level {
        Level::Error => "error",
        Level::Warn => "warn",
        Level::Info => "info",
        Level::Debug => "debug",
        Level::Trace => "trace",
    }
}

/// A source name belonging to the cross-boundary call machinery itself: one
/// that starts with the excluded-recursion prefix `jni`.  Records from such
/// sources are never dispatched.
pub open spec fn is_excluded_target(t: Seq<char>) -> bool {
    t.len() >= 3 && t[0] == 'j' && t[1] == 'n' && t[2] == 'i'
}

/// The adapter that stands between the native logging facade and the host
/// loggers.  It decides which records may cross the boundary.
#[derive(Debug, Clone, Copy)]
pub struct Logger;

impl Logger {
    /// A record is forwarded only when its source is not the cross-boundary
    /// machinery itself; forwarding such a record could recurse forever.
    pub fn enabled(&self, target: &str) -> (r: bool)
        ensures
            r == !is_excluded_target(target@),
    {
        let n = target.unicode_len();
        if n < 3 {
            true
        } else {
            let c0 = target.get_char(0);
            let c1 = target.get_char(1);
            let c2 = target.get_char(2);
            !(c0 == 'j' && c1 == 'n' && c2 == 'i')
        }
    }
}

/// The decimal digit character for `d` (a single digit).
pub open spec fn digit_char(d: nat) -> char {
    if d == 0 {
        '0'
    } else if d == 1 {
        '1'
    } else if d == 2 {
        '2'
    } else if d == 3 {
        '3'
    } else if d == 4 {
        '4'
    } else if d == 5 {
        '5'
    } else if d == 6 {
        '6'
    } else if d == 7 {
        '7'
    } else if d == 8 {
        '8'
    } else {
        '9'
    }
}

/// The decimal rendering of `n`, most significant digit first, with no
/// leading zeros (except for `n == 0` itself).
pub open spec fn dec_str_spec(n: nat) -> Seq<char>
    decreases n,
{
    if n < 10 {
        seq![digit_char(n)]
    } else {
        dec_str_spec(n / 10) + seq![digit_char(n % 10)]
    }
}

/// The one-character string for a single decimal digit.
fn digit_str(d: u32) -> (r: &'static str)
    requires
        d < 10,
    ensures
        r@ == seq![digit_char(d as nat)],
{
    if d == 0 {
        proof {
            reveal_strlit("0");
            assert("0"@ =~= seq!['0']);
        }
        "0"
    } else if d == 1 {
        proof {
            reveal_strlit("1");
            assert("1"@ =~= seq!['1']);
        }
        "1"
    } else if d == 2 {
        proof {
            reveal_strlit("2");
            assert("2"@ =~= seq!['2']);
        }
        "2"
    } else if d == 3 {
        proof {
            reveal_strlit("3");
            assert("3"@ =~= seq!['3']);
        }
        "3"
    } else if d == 4 {
        proof {
            reveal_strlit("4");
            assert("4"@ =~= seq!['4']);
        }
        "4"
    } else if d == 5 {
        proof {
            reveal_strlit("5");
            assert("5"@ =~= seq!['5']);
        }
        "5"
    } else if d == 6 {
        proof {
            reveal_strlit("6");
            assert("6"@ =~= seq!['6']);
        }
        "6"
    } else if d == 7 {
        proof {
            reveal_strlit("7");
            assert("7"@ =~= seq!['7']);
        }
        "7"
    } else if d == 8 {
        proof {
            reveal_strlit("8");
            assert("8"@ =~= seq!['8']);
        }
        "8"
    } else {
        proof {
            reveal_strlit("9");
            assert("9"@ =~= seq!['9']);
        }
        "9"
    }
}

/// Render `n` in decimal.
fn dec_str(n: u32) -> (s: String)
    ensures
        s@ == dec_str_spec(n as nat),
    decreases n,
{
    if n < 10 {
        String::from_str(digit_str(n))
    } else {
        let prefix = dec_str(n / 10);
        prefix.concat(digit_str(n % 10))
    }
}

/// The message text handed to the host logger for a record: the source
/// location (file, then `:line`, each part only when known), the separator
/// ` - `, and the record's own message.
pub open spec fn format_msg_spec(r: LogRecord) -> Seq<char> {
    (match r.file {
        Some(f) => f@,
        None => Seq::<char>::empty(),
    }) + (match r.line {
        Some(l) => ":"@ + dec_str_spec(l as nat),
        None => Seq::<char>::empty(),
    }) + " - "@ + r.message@
}

/// Format the log message as `"{file}:{line} - {message}"`, leaving out the
/// location parts that the record does not carry.
pub fn format_msg(record: &LogRecord) -> (r: String)
    ensures
        r@ == format_msg_spec(*record),
{
    let mut msg = String::new();
    match &record.file {
        Some(f) => msg.append(f.as_str()),
        None => (),
    }
    match &record.line {
        Some(l) => {
            msg.append(":");
            let line = dec_str(*l);
            msg.append(line.as_str());
        },
        None => (),
    }
    msg.append(" - ");
    msg.append(record.message.as_str());
    proof {
        assert(msg@ =~= format_msg_spec(*record));
    }
    msg
}

/// Bridges the native logging facade to the host loggers: the five resolved
/// level methods, and a cache mapping each log-source name to the pinned
/// host logger object already resolved for it.  The cache only grows, one
/// entry per distinct source name, and an entry is never replaced.
#[derive(Debug)]
pub struct CallState {
    /// The five level-specific methods of the host logger class.
    pub methods: LogMethods,
    /// Source name paired with the token of its pinned host logger object.
    pub loggers: Vec<(String, u64)>,
}

impl CallState {
    /// Each source name appears at most once in the cache.
    pub open spec fn wf(self) -> bool {
        forall|i: int, j: int|
            0 <= i < j < self.loggers@.len() ==> self.loggers@[i].0@ != self.loggers@[j].0@
    }

    /// A logger object has already been resolved for this source name.
    pub open spec fn cached(self, name: Seq<char>) -> bool {
        exists|i: int| 0 <= i < self.loggers@.len() && self.loggers@[i].0@ == name
    }

    /// The cache position of this source name's entry.
    pub open spec fn cache_index(self, name: Seq<char>) -> int {
        choose|i: int| 0 <= i < self.loggers@.len() && self.loggers@[i].0@ == name
    }

    /// The pinned logger token cached for this source name.
    pub open spec fn cached_ref(self, name: Seq<char>) -> u64 {
        self.loggers@[self.cache_index(name)].1
    }

    /// A fresh call state around the given resolved level methods, with no
    /// logger object cached yet.
    pub fn try_new(methods: LogMethods) -> (s: CallState)
        ensures
            s.methods == methods,
            s.loggers@.len() == 0,
            s.wf(),
    {
        CallState { methods, loggers: Vec::new() }
    }

    /// Look up the cached logger token for a source name, if one was ever
    /// installed.
    pub fn lookup_logger(&self, name: &String) -> (r: Option<u64>)
        requires
            self.wf(),
        ensures
            match r {
                Some(v) => self.cached(name@) && v == self.cached_ref(name@),
                None => !self.cached(name@),
            },
    {
        let n = self.loggers.len();
        let mut i: usize = 0;
        while i < n
            invariant
                n == self.loggers@.len(),
                i <= n,
                self.wf(),
                forall|j: int| 0 <= j < i ==> self.loggers@[j].0@ != name@,
            decreases n - i,
        {
            if self.loggers[i].0 == *name {
                proof {
                    lemma_cache_entry_determines_ref(*self, name@, i as int);
                }
                return Some(self.loggers[i].1);
            }
            i += 1;
        }
        None
    }

    /// Install the resolved logger token for a source name.  If the name is
    /// already cached the state is unchanged and the token that won the first
    /// installation is returned: among racing first-time resolvers a single
    /// winner publishes.  Entries for other names are untouched, and the
    /// cache never shrinks.
    pub fn cache_logger(&mut self, name: &String, logger_ref: u64) -> (r: u64)
        requires
            old(self).wf(),
        ensures
            final(self).wf(),
            final(self).methods == old(self).methods,
            final(self).cached(name@),
            r == final(self).cached_ref(name@),
            old(self).cached(name@) ==> *final(self) == *old(self) && r == old(self).cached_ref(
                name@,
            ),
            !old(self).cached(name@) ==> r == logger_ref && final(self).loggers@.len() == old(
                self,
            ).loggers@.len() + 1,
            forall|n2: Seq<char>|
                n2 != name@ ==> final(self).cached(n2) == old(self).cached(n2),
            forall|n2: Seq<char>|
                n2 != name@ && old(self).cached(n2) ==> final(self).cached_ref(n2) == old(
                    self,
                ).cached_ref(n2),
    {
        let existing = self.lookup_logger(name);
        match existing {
            Some(v) => v,
            None => {
                self.loggers.push((name.clone(), logger_ref));
                proof {
                    let ghost pre = *old(self);
                    let ghost post = *self;
                    let ghost len = pre.loggers@.len() as int;
                    assert(post.loggers@[len].0@ == name@);
                    assert forall|i: int, j: int|
                        0 <= i < j < post.loggers@.len() implies post.loggers@[i].0@
                        != post.loggers@[j].0@ by {
                        if j < len {
                            assert(pre.loggers@[i].0@ != pre.loggers@[j].0@);
                        } else {
                            assert(!pre.cached(name@));
                            assert(pre.loggers@[i].0@ != name@);
                        }
                    }
                    lemma_cache_entry_determines_ref(post, name@, len);
                    assert forall|n2: Seq<char>| n2 != name@ implies post.cached(n2) == pre.cached(
                        n2,
                    ) by {
                        if pre.cached(n2) {
                            let w = pre.cache_index(n2);
                            assert(post.loggers@[w].0@ == n2);
                            assert(post.cached(n2));
                        }
                        if post.cached(n2) {
                            let w = post.cache_index(n2);
                            assert(post.loggers@[w].0@ == n2);
                            assert(w != len);
                            assert(pre.loggers@[w].0@ == n2);
                            assert(pre.cached(n2));
                        }
                    }
                    assert forall|n2: Seq<char>| n2 != name@ && pre.cached(n2) implies post
                        .cached_ref(n2) == pre.cached_ref(n2) by {
                        let w = pre.cache_index(n2);
                        assert(pre.loggers@[w].0@ == n2);
                        assert(post.loggers@[w].0@ == n2);
                        lemma_cache_entry_determines_ref(post, n2, w);
                        lemma_cache_entry_determines_ref(pre, n2, w);
                    }
                }
                logger_ref
            },
        }
    }
}

/// What the native side must do with one log record.  The record's data
/// alone decides: no host work happens before the decision.
#[derive(Debug)]
pub enum LogStep {
    /// The record's source is the cross-boundary machinery itself: it is
    /// dropped, and no host logger call is made for it.
    Skip,
    /// No logger object is cached for this source yet: the host must resolve
    /// one for `name`, to be installed with [`CallState::cache_logger`], and
    /// the record replanned.
    Resolve { name: String },
    /// Deliver `message` to the cached logger object through the
    /// level-specific host method.
    Dispatch { logger: u64, method: u64, message: String },
}

impl CallState {
    /// Decide how one log record is handled: records from the excluded
    /// sources are dropped; for any other record the formatted message goes
    /// to the source's cached logger object through the method selected by
    /// the record's severity, once that object is resolved.
    pub fn plan(&self, record: &LogRecord) -> (s: LogStep)
        requires
            self.wf(),
        ensures
            is_excluded_target(record.target@) <==> s is Skip,
            (s matches LogStep::Resolve { name } ==> name@ == record.target@ && !self.cached(
                record.target@,
            )),
            !is_excluded_target(record.target@) && !self.cached(record.target@) ==> s is Resolve,
            (s matches LogStep::Dispatch { logger, method, message } ==> self.cached(
                record.target@,
            ) && logger == self.cached_ref(record.target@) && method
                == self.methods.find_method_spec(record.level) && message@ == format_msg_spec(
                *record,
            )),
            !is_excluded_target(record.target@) && self.cached(record.target@) ==> s is Dispatch,
    {
        let filter = Logger;
        if !filter.enabled(record.target.as_str()) {
            LogStep::Skip
        } else {
            let message = format_msg(record);
            match self.lookup_logger(&record.target) {
                Some(logger) => LogStep::Dispatch {
                    logger,
                    method: self.methods.find_method(record.level),
                    message,
                },
                None => LogStep::Resolve { name: record.target.clone() },
            }
        }
    }
}

/// A record from a source matching the excluded-recursion prefix is never
/// dispatched to any host logger call: whatever the call state, the plan for
/// such a record is to drop it.
pub proof fn lemma_excluded_source_never_dispatched(s: CallState, record: LogRecord)
    requires
        is_excluded_target(record.target@),
    ensures
        !(exists|logger: u64, method: u64, message: String|
            could_plan(s, record, LogStep::Dispatch { logger, method, message })),
{
    assert forall|logger: u64, method: u64, message: String|
        !could_plan(s, record, LogStep::Dispatch { logger, method, message }) by {}
}

/// The plans [`CallState::plan`] may produce for a record, as its contract
/// pins them down.
pub open spec fn could_plan(s: CallState, record: LogRecord, step: LogStep) -> bool {
    &&& (is_excluded_target(record.target@) <==> step is Skip)
    &&& (step matches LogStep::Resolve { name } ==> name@ == record.target@ && !s.cached(
        record.target@,
    ))
    &&& (step matches LogStep::Dispatch { logger, method, message } ==> s.cached(record.target@)
        && logger == s.cached_ref(record.target@) && method == s.methods.find_method_spec(
        record.level,
    ) && message@ == format_msg_spec(record))
}

/// With unique source names, any cache position holding a name determines
/// the cached token: the cache's chosen index for that name is that very
/// position.
proof fn lemma_cache_entry_determines_ref(s: CallState, name: Seq<char>, i: int)
    requires
        s.wf(),
        0 <= i < s.loggers@.len(),
        s.loggers@[i].0@ == name,
    ensures
        s.cached(name),
        s.cache_index(name) == i,
        s.cached_ref(name) == s.loggers@[i].1,
{
    assert(s.cached(name));
    let j = s.cache_index(name);
    assert(0 <= j < s.loggers@.len() && s.loggers@[j].0@ == name);
    if j < i {
        assert(s.loggers@[j].0@ != s.loggers@[i].0@);
    } else if i < j {
        assert(s.loggers@[i].0@ != s.loggers@[j].0@);
    }
}

} // verus!
