//! The registrations of the run loop: which file descriptors and timers a
//! plug-in asked the host to watch, and whom to call when one is ready.
//!
//! The table is plain data. Whoever owns it polls the descriptors, creates
//! and closes the timers, and runs the callbacks; the table decides what is
//! watched, who is called, and which timers are to be closed.

use crate::util::{len_before, lemma_len_before, lemma_len_before_bounds};
use vstd::prelude::*;

verus! {

/// How long one poll waits at most, in milliseconds, so that a shutdown and
/// changes of the registrations are seen promptly.
pub const POLL_TIMEOUT_MS: i32 = 100;

/// Who is called when a file descriptor is ready. An event handler and a
/// timer handler are told apart; each is known by the identity of its
/// object.
#[derive(Copy, Clone, Debug, PartialEq, Eq, Hash, Structural)]
pub enum Handler {
    Event(usize),
    Timer(usize),
}

/// One registration: a file descriptor and the handler to call for it.
pub type Registration = (i32, Handler);

/// What is handed to the main thread when a file descriptor is ready: the
/// handler to call, and for an event handler the descriptor to call it with.
#[derive(Copy, Clone, Debug, PartialEq, Eq, Structural)]
pub enum MainThreadEvent {
    FdIsSet { handler: usize, fd: i32 },
    Timer { handler: usize },
}

/// What one poll reported about one file descriptor.
#[derive(Copy, Clone, Debug, PartialEq, Eq, Structural)]
pub struct Polled {
    pub fd: i32,
    pub revents: i16,
}

/// How to arm the timer of an interval: the interval and the first expiry,
/// each in whole seconds and the nanoseconds beyond them.
#[derive(Copy, Clone, Debug, PartialEq, Eq, Structural)]
pub struct TimerSpec {
    pub interval_secs: i64,
    pub interval_nanos: i64,
    pub value_secs: i64,
    pub value_nanos: i64,
}

/// The registrations of a run loop, in the order in which they were made.
pub struct RunLoop {
    handlers: Vec<Registration>,
    worker: bool,
    shutdown: bool,
}

/// The handlers of `entries`, in order.
pub open spec fn handlers_of(entries: Seq<Registration>) -> Seq<Handler> {
    entries.map_values(|e: Registration| e.1)
}

/// The file descriptors of `entries`, in order.
pub open spec fn fds_of(entries: Seq<Registration>) -> Seq<i32> {
    entries.map_values(|e: Registration| e.0)
}

/// The place of the first registration of `handler` in `entries`, or their
/// number where there is none.
pub open spec fn first_of_handler(entries: Seq<Registration>, handler: Handler) -> int {
    len_before(handlers_of(entries), handler) as int
}

/// The place of the first registration for `fd` in `entries`, or their
/// number where there is none.
pub open spec fn first_of_fd(entries: Seq<Registration>, fd: i32) -> int {
    len_before(fds_of(entries), fd) as int
}

/// `entries` without the first registration of `handler`.
pub open spec fn without_first(entries: Seq<Registration>, handler: Handler) -> Seq<Registration> {
    let k = first_of_handler(entries, handler);
    if k < entries.len() {
        entries.remove(k)
    } else {
        entries
    }
}

/// `entries` without the first registration for `fd`.
pub open spec fn without_fd(entries: Seq<Registration>, fd: i32) -> Seq<Registration> {
    let k = first_of_fd(entries, fd);
    if k < entries.len() {
        entries.remove(k)
    } else {
        entries
    }
}

/// `entries` without the first registration for each file descriptor of
/// `fds`, taken out one after the other.
pub open spec fn without_fds(entries: Seq<Registration>, fds: Seq<i32>) -> Seq<Registration>
    decreases fds.len(),
{
    if fds.len() == 0 {
        entries
    } else {
        without_fds(without_fd(entries, fds[0]), fds.drop_first())
    }
}

/// The file descriptor of the first registration of `handler`, if any.
pub open spec fn fd_of_first(entries: Seq<Registration>, handler: Handler) -> Option<i32> {
    let k = first_of_handler(entries, handler);
    if k < entries.len() {
        Some(entries[k].0)
    } else {
        None
    }
}

/// The file descriptors of the timers among `entries`, in order.
pub open spec fn timer_fds(entries: Seq<Registration>) -> Seq<i32>
    decreases entries.len(),
{
    if entries.len() == 0 {
        Seq::empty()
    } else if entries.last().1 is Timer {
        timer_fds(entries.drop_last()).push(entries.last().0)
    } else {
        timer_fds(entries.drop_last())
    }
}

/// The registrations of event handlers among `entries`, in order.
pub open spec fn event_entries(entries: Seq<Registration>) -> Seq<Registration>
    decreases entries.len(),
{
    if entries.len() == 0 {
        Seq::empty()
    } else if entries.last().1 is Timer {
        event_entries(entries.drop_last())
    } else {
        event_entries(entries.drop_last()).push(entries.last())
    }
}

/// What the main thread is handed for `fd`: the call of the first handler
/// that is registered for it, if any.
pub open spec fn event_for(entries: Seq<Registration>, fd: i32) -> Option<MainThreadEvent> {
    let k = first_of_fd(entries, fd);
    if k < entries.len() {
        Some(
            match entries[k].1 {
                Handler::Event(handler) => MainThreadEvent::FdIsSet { handler, fd },
                Handler::Timer(handler) => MainThreadEvent::Timer { handler },
            },
        )
    } else {
        None
    }
}

/// The file descriptors that `polled` reports as ready, in order: those
/// with any returned event.
pub open spec fn ready_of(polled: Seq<Polled>) -> Seq<i32>
    decreases polled.len(),
{
    if polled.len() == 0 {
        Seq::empty()
    } else if polled.last().revents != 0 {
        ready_of(polled.drop_last()).push(polled.last().fd)
    } else {
        ready_of(polled.drop_last())
    }
}

/// The timer for an interval of `ms` milliseconds: it first expires after
/// one interval and then once every interval.
pub open spec fn timer_spec_of(ms: u64) -> TimerSpec {
    TimerSpec {
        interval_secs: (ms / 1000) as i64,
        interval_nanos: ((ms % 1000) * 1_000_000) as i64,
        value_secs: (ms / 1000) as i64,
        value_nanos: ((ms % 1000) * 1_000_000) as i64,
    }
}

/// How to arm the timer of a registration with an interval of `ms`
/// milliseconds.
pub fn timer_spec(ms: u64) -> (spec: TimerSpec)
    ensures
        spec == timer_spec_of(ms),
        spec.interval_secs * 1_000_000_000 + spec.interval_nanos == ms * 1_000_000,
        0 <= spec.interval_nanos < 1_000_000_000,
        0 <= spec.interval_secs,
{
    let secs = (ms / 1000) as i64;
    let nanos = ((ms % 1000) * 1_000_000) as i64;
    TimerSpec { interval_secs: secs, interval_nanos: nanos, value_secs: secs, value_nanos: nanos }
}

impl RunLoop {
    /// The registrations, in the order in which they were made.
    pub closed spec fn view(&self) -> Seq<Registration> {
        self.handlers@
    }

    /// Whether the worker that polls for this table is running.
    pub closed spec fn is_running(&self) -> bool {
        self.worker
    }

    /// Whether the run loop was told to stop.
    pub closed spec fn is_shutdown(&self) -> bool {
        self.shutdown
    }

    /// An empty table whose worker is running.
    pub fn new() -> (run_loop: RunLoop)
        ensures
            run_loop@ == Seq::<Registration>::empty(),
            run_loop.is_running(),
            !run_loop.is_shutdown(),
    {
        RunLoop { handlers: Vec::new(), worker: true, shutdown: false }
    }

    /// Whether the worker has to leave its loop.
    pub fn shutdown_requested(&self) -> (shutdown: bool)
        ensures
            shutdown == self.is_shutdown(),
    {
        self.shutdown
    }

    /// Registers the event handler `handler` for the file descriptor `fd`,
    /// after all earlier registrations.
    pub fn register_event_handler(&mut self, handler: usize, fd: i32)
        ensures
            final(self)@ == old(self)@.push((fd, Handler::Event(handler))),
            final(self).is_running() == old(self).is_running(),
            final(self).is_shutdown() == old(self).is_shutdown(),
    {
        self.handlers.push((fd, Handler::Event(handler)));
    }

    /// Registers the timer handler `handler` with the timer `fd` that was
    /// created for it, after all earlier registrations.
    pub fn register_timer(&mut self, handler: usize, fd: i32)
        ensures
            final(self)@ == old(self)@.push((fd, Handler::Timer(handler))),
            final(self).is_running() == old(self).is_running(),
            final(self).is_shutdown() == old(self).is_shutdown(),
    {
        self.handlers.push((fd, Handler::Timer(handler)));
    }

    /// Whether `handler` has a registration.
    pub fn is_registered(&self, handler: Handler) -> (registered: bool)
        ensures
            registered == handlers_of(self@).contains(handler),
    {
        let mut index: usize = 0;
        while index < self.handlers.len()
            invariant
                index <= self.handlers@.len(),
                forall|i: int| 0 <= i < index ==> handlers_of(self@)[i] != handler,
            decreases self.handlers@.len() - index,
        {
            if self.handlers[index].1 == handler {
                assert(handlers_of(self@)[index as int] == handler);
                return true;
            }
            index += 1;
        }
        false
    }

    fn remove_first(&mut self, handler: Handler) -> (fd: Option<i32>)
        ensures
            final(self)@ == without_first(old(self)@, handler),
            fd == fd_of_first(old(self)@, handler),
            final(self).is_running() == old(self).is_running(),
            final(self).is_shutdown() == old(self).is_shutdown(),
    {
        let mut index: usize = 0;
        while index < self.handlers.len()
            invariant
                index <= self.handlers@.len(),
                *self == *old(self),
                forall|i: int| 0 <= i < index ==> self.handlers@[i].1 != handler,
            decreases self.handlers@.len() - index,
        {
            if self.handlers[index].1 == handler {
                proof {
                    lemma_len_before(handlers_of(self@), handler, index as int);
                }
                let (fd, _) = self.handlers.remove(index);
                return Some(fd);
            }
            index += 1;
        }
        proof {
            lemma_len_before(handlers_of(self@), handler, index as int);
        }
        None
    }

    /// Removes the first registration of the event handler `handler`, if
    /// there is one, and answers its file descriptor. The descriptor stays
    /// open: it belongs to whoever registered it.
    pub fn unregister_event_handler(&mut self, handler: usize) -> (fd: Option<i32>)
        ensures
            final(self)@ == without_first(old(self)@, Handler::Event(handler)),
            fd == fd_of_first(old(self)@, Handler::Event(handler)),
            final(self).is_running() == old(self).is_running(),
            final(self).is_shutdown() == old(self).is_shutdown(),
    {
        self.remove_first(Handler::Event(handler))
    }

    /// Removes the first registration of the timer handler `handler`, if
    /// there is one, and answers its timer, which is to be closed now.
    pub fn unregister_timer(&mut self, handler: usize) -> (fd: Option<i32>)
        ensures
            final(self)@ == without_first(old(self)@, Handler::Timer(handler)),
            fd == fd_of_first(old(self)@, Handler::Timer(handler)),
            final(self).is_running() == old(self).is_running(),
            final(self).is_shutdown() == old(self).is_shutdown(),
    {
        self.remove_first(Handler::Timer(handler))
    }

    fn remove_listener(&mut self, fd: i32)
        ensures
            final(self)@ == without_fd(old(self)@, fd),
            final(self).is_running() == old(self).is_running(),
            final(self).is_shutdown() == old(self).is_shutdown(),
    {
        let mut index: usize = 0;
        while index < self.handlers.len()
            invariant
                index <= self.handlers@.len(),
                *self == *old(self),
                forall|i: int| 0 <= i < index ==> self.handlers@[i].0 != fd,
            decreases self.handlers@.len() - index,
        {
            if self.handlers[index].0 == fd {
                proof {
                    lemma_len_before(fds_of(self@), fd, index as int);
                }
                self.handlers.remove(index);
                return ;
            }
            index += 1;
        }
        proof {
            lemma_len_before(fds_of(self@), fd, index as int);
        }
    }

    /// Removes the first registration for each file descriptor of `fds`,
    /// one after the other. A descriptor that is not registered is passed
    /// over. No timer is closed.
    pub fn remove_listeners(&mut self, fds: &Vec<i32>)
        ensures
            final(self)@ == without_fds(old(self)@, fds@),
            final(self).is_running() == old(self).is_running(),
            final(self).is_shutdown() == old(self).is_shutdown(),
    {
        let mut index: usize = 0;
        proof {
            assert(fds@.skip(0) =~= fds@);
        }
        while index < fds.len()
            invariant
                index <= fds@.len(),
                self.is_running() == old(self).is_running(),
                self.is_shutdown() == old(self).is_shutdown(),
                without_fds(old(self)@, fds@) == without_fds(self@, fds@.skip(index as int)),
            decreases fds@.len() - index,
        {
            proof {
                assert(fds@.skip(index as int).drop_first() =~= fds@.skip(index + 1));
            }
            self.remove_listener(fds[index]);
            index += 1;
        }
    }

    /// Tells the run loop to stop. The first call on a running loop answers
    /// the timers that are still registered, which are to be closed once the
    /// worker has ended, and forgets their registrations; the registrations
    /// of event handlers stay. A loop that is not running answers nothing
    /// and keeps its registrations.
    pub fn stop(&mut self) -> (timers: Vec<i32>)
        ensures
            final(self).is_shutdown(),
            !final(self).is_running(),
            old(self).is_running() ==> timers@ == timer_fds(old(self)@) && final(self)@
                == event_entries(old(self)@),
            !old(self).is_running() ==> timers@ == Seq::<i32>::empty() && final(self)@ == old(
                self)@,
    {
        self.shutdown = true;
        let mut timers: Vec<i32> = Vec::new();
        if !self.worker {
            return timers;
        }
        self.worker = false;
        let mut kept: Vec<Registration> = Vec::new();
        let mut index: usize = 0;
        while index < self.handlers.len()
            invariant
                index <= self.handlers@.len(),
                self.handlers@ == old(self).handlers@,
                timers@ == timer_fds(self.handlers@.take(index as int)),
                kept@ == event_entries(self.handlers@.take(index as int)),
            decreases self.handlers@.len() - index,
        {
            let (fd, handler) = self.handlers[index];
            proof {
                let next = self.handlers@.take(index + 1);
                assert(next.drop_last() =~= self.handlers@.take(index as int));
                assert(next.last() == self.handlers@[index as int]);
            }
            match handler {
                Handler::Timer(_) => {
                    timers.push(fd);
                },
                Handler::Event(_) => {
                    kept.push((fd, handler));
                },
            }
            index += 1;
        }
        proof {
            assert(self.handlers@.take(index as int) =~= self.handlers@);
        }
        self.handlers = kept;
        timers
    }

    /// The file descriptors to poll, one for each registration, in order.
    pub fn poll_set(&self) -> (fds: Vec<i32>)
        ensures
            fds@ == fds_of(self@),
    {
        let mut fds: Vec<i32> = Vec::new();
        let mut index: usize = 0;
        while index < self.handlers.len()
            invariant
                index <= self.handlers@.len(),
                fds@ == fds_of(self@.take(index as int)),
            decreases self.handlers@.len() - index,
        {
            fds.push(self.handlers[index].0);
            proof {
                assert(fds_of(self@.take(index + 1)) =~= fds_of(self@.take(index as int)).push(
                    self@[index as int].0,
                ));
            }
            index += 1;
        }
        proof {
            assert(self@.take(index as int) =~= self@);
        }
        fds
    }

    /// What to hand to the main thread for the ready file descriptor `fd`:
    /// the call of the first handler registered for it, or nothing where it
    /// is no longer registered.
    pub fn lookup(&self, fd: i32) -> (event: Option<MainThreadEvent>)
        ensures
            event == event_for(self@, fd),
    {
        let mut index: usize = 0;
        while index < self.handlers.len()
            invariant
                index <= self.handlers@.len(),
                forall|i: int| 0 <= i < index ==> self.handlers@[i].0 != fd,
            decreases self.handlers@.len() - index,
        {
            let (fd_, handler) = self.handlers[index];
            if fd_ == fd {
                proof {
                    lemma_len_before(fds_of(self@), fd, index as int);
                }
                return Some(
                    match handler {
                        Handler::Event(handler) => MainThreadEvent::FdIsSet { handler, fd },
                        Handler::Timer(handler) => MainThreadEvent::Timer { handler },
                    },
                );
            }
            index += 1;
        }
        proof {
            lemma_len_before(fds_of(self@), fd, index as int);
        }
        None
    }
}

/// The file descriptors to serve after a poll: those that it reports as
/// ready, in the order in which they were polled.
pub fn ready_fds(polled: &Vec<Polled>) -> (ready: Vec<i32>)
    ensures
        ready@ == ready_of(polled@),
{
    let mut ready: Vec<i32> = Vec::new();
    let mut index: usize = 0;
    while index < polled.len()
        invariant
            index <= polled@.len(),
            ready@ == ready_of(polled@.take(index as int)),
        decreases polled@.len() - index,
    {
        proof {
            let next = polled@.take(index + 1);
            assert(next.drop_last() =~= polled@.take(index as int));
            assert(next.last() == polled@[index as int]);
        }
        if polled[index].revents != 0 {
            ready.push(polled[index].fd);
        }
        index += 1;
    }
    proof {
        assert(polled@.take(index as int) =~= polled@);
    }
    ready
}

/// The number of timers among the first `k` registrations of `entries`.
pub open spec fn timers_before(entries: Seq<Registration>, k: int) -> int {
    timer_fds(entries.take(k)).len() as int
}

/// Registering a handler that is not registered yet and unregistering it
/// again leaves the registrations as they were, and answers the file
/// descriptor it was registered with.
pub proof fn lemma_register_unregister(entries: Seq<Registration>, fd: i32, handler: Handler)
    requires
        !handlers_of(entries).contains(handler),
    ensures
        without_first(entries.push((fd, handler)), handler) == entries,
        fd_of_first(entries.push((fd, handler)), handler) == Some(fd),
{
    let after = entries.push((fd, handler));
    let n = entries.len() as int;
    assert forall|i: int| 0 <= i < n implies handlers_of(after)[i] != handler by {
        assert(handlers_of(entries)[i] == handlers_of(after)[i]);
    }
    lemma_len_before(handlers_of(after), handler, n);
    assert(after.remove(n) =~= entries);
}

/// Taking one registration out of the table takes exactly its timer out of
/// the timers that are still to be closed, and no timer where it is the
/// registration of an event handler.
pub proof fn lemma_timers_after_remove(entries: Seq<Registration>, k: int)
    requires
        0 <= k < entries.len(),
    ensures
        0 <= timers_before(entries, k) <= timer_fds(entries).len(),
        entries[k].1 is Timer ==> {
            &&& timers_before(entries, k) < timer_fds(entries).len()
            &&& timer_fds(entries)[timers_before(entries, k)] == entries[k].0
            &&& timer_fds(entries.remove(k)) == timer_fds(entries).remove(
                timers_before(entries, k),
            )
        },
        !(entries[k].1 is Timer) ==> timer_fds(entries.remove(k)) == timer_fds(entries),
    decreases entries.len(),
{
    let last = entries.len() - 1;
    if k == last {
        assert(entries.take(k) =~= entries.drop_last());
        assert(entries.remove(k) =~= entries.drop_last());
        if entries[k].1 is Timer {
            assert(timer_fds(entries).remove(timers_before(entries, k)) =~= timer_fds(
                entries.drop_last(),
            ));
        }
    } else {
        let front = entries.drop_last();
        lemma_timers_after_remove(front, k);
        assert(front.take(k) =~= entries.take(k));
        assert(entries.remove(k).drop_last() =~= front.remove(k));
        assert(entries.remove(k).last() == entries.last());
        if entries[k].1 is Timer {
            let r = timers_before(entries, k);
            if entries.last().1 is Timer {
                assert(timer_fds(front).push(entries.last().0).remove(r) =~= timer_fds(
                    front,
                ).remove(r).push(entries.last().0));
            }
        }
    }
}

/// A stop leaves no timer behind: what it keeps holds no timer, so no
/// timer is handed out for closing a second time.
pub proof fn lemma_stop_leaves_no_timer(entries: Seq<Registration>)
    ensures
        timer_fds(event_entries(entries)) == Seq::<i32>::empty(),
        event_entries(event_entries(entries)) == event_entries(entries),
        forall|i: int|
            0 <= i < event_entries(entries).len() ==> !(#[trigger] event_entries(entries)[i].1
                is Timer),
    decreases entries.len(),
{
    if entries.len() > 0 {
        lemma_stop_leaves_no_timer(entries.drop_last());
        if !(entries.last().1 is Timer) {
            let kept = event_entries(entries);
            assert(kept.drop_last() =~= event_entries(entries.drop_last()));
            assert(kept.last() == entries.last());
        }
    }
}

/// Once the registration of a file descriptor is removed and no other
/// registration names that descriptor, nothing is handed to the main thread
/// for it any more.
pub proof fn lemma_unregistered_is_not_served(entries: Seq<Registration>, handler: Handler)
    requires
        first_of_handler(entries, handler) < entries.len(),
        forall|i: int, j: int|
            0 <= i < j < entries.len() ==> (#[trigger] entries[i]).0 != (#[trigger] entries[j]).0,
    ensures
        fd_of_first(entries, handler) matches Some(fd) && event_for(
            without_first(entries, handler),
            fd,
        ) is None,
{
    let k = first_of_handler(entries, handler);
    let fd = entries[k].0;
    let after = entries.remove(k);
    assert forall|i: int| 0 <= i < after.len() implies fds_of(after)[i] != fd by {
        if i < k {
            assert(after[i] == entries[i]);
        } else {
            assert(after[i] == entries[i + 1]);
        }
    }
    lemma_len_before(fds_of(after), fd, after.len() as int);
}

/// One call on a run loop. Calls from several threads take the table one
/// after the other, so whatever the threads do is one sequence of calls.
pub enum Call {
    /// An event handler is registered for a file descriptor.
    RegisterEventHandler { handler: usize, fd: i32 },
    /// The first registration of an event handler is removed.
    UnregisterEventHandler { handler: usize },
    /// A timer handler is registered with the timer that was created for
    /// it.
    RegisterTimer { handler: usize, fd: i32 },
    /// The first registration of a timer handler is removed, and its timer
    /// is closed.
    UnregisterTimer { handler: usize },
    /// The run loop is stopped, and the timers that it answers are closed.
    Stop,
}

/// The books of a run loop: its registrations, whether its worker runs,
/// every timer that was created for a registration, and every timer that
/// was closed, each in the order in which it happened.
pub struct Books {
    pub entries: Seq<Registration>,
    pub running: bool,
    pub created: Seq<i32>,
    pub closed: Seq<i32>,
}

/// The books after one call: the table changes as the function of the call
/// says, a registered timer counts as created, and a timer that
/// `unregister_timer` or `stop` answers counts as closed.
pub open spec fn after_call(books: Books, call: Call) -> Books {
    match call {
        Call::RegisterEventHandler { handler, fd } => Books {
            entries: books.entries.push((fd, Handler::Event(handler))),
            ..books
        },
        Call::UnregisterEventHandler { handler } => Books {
            entries: without_first(books.entries, Handler::Event(handler)),
            ..books
        },
        Call::RegisterTimer { handler, fd } => Books {
            entries: books.entries.push((fd, Handler::Timer(handler))),
            created: books.created.push(fd),
            ..books
        },
        Call::UnregisterTimer { handler } => Books {
            entries: without_first(books.entries, Handler::Timer(handler)),
            closed: match fd_of_first(books.entries, Handler::Timer(handler)) {
                Some(fd) => books.closed.push(fd),
                None => books.closed,
            },
            ..books
        },
        Call::Stop => if books.running {
            Books {
                entries: event_entries(books.entries),
                running: false,
                closed: books.closed + timer_fds(books.entries),
                ..books
            }
        } else {
            books
        },
    }
}

/// The books after the calls of `calls`, one after the other.
pub open spec fn after_calls(books: Books, calls: Seq<Call>) -> Books
    decreases calls.len(),
{
    if calls.len() == 0 {
        books
    } else {
        after_call(after_calls(books, calls.drop_last()), calls.last())
    }
}

/// The books of a run loop that was just made.
pub open spec fn new_books() -> Books {
    Books { entries: Seq::empty(), running: true, created: Seq::empty(), closed: Seq::empty() }
}

/// Whether every timer that was created is either still registered or was
/// closed, and that exactly as often as it was created: none is closed
/// twice, none is closed and still registered, none is lost.
pub open spec fn timers_balance(books: Books) -> bool {
    books.created.to_multiset() == books.closed.to_multiset().add(
        timer_fds(books.entries).to_multiset(),
    )
}

/// No call upsets the balance of the timers.
pub proof fn lemma_call_keeps_balance(books: Books, call: Call)
    requires
        timers_balance(books),
    ensures
        timers_balance(after_call(books, call)),
{
    broadcast use vstd::multiset::group_multiset_axioms;

    let after = after_call(books, call);
    let timers = timer_fds(books.entries);
    match call {
        Call::RegisterEventHandler { handler, fd } => {
            assert(after.entries.drop_last() =~= books.entries);
        },
        Call::RegisterTimer { handler, fd } => {
            assert(after.entries.drop_last() =~= books.entries);
            vstd::seq_lib::to_multiset_build(timers, fd);
            vstd::seq_lib::to_multiset_build(books.created, fd);
            assert(after.created.to_multiset() =~= after.closed.to_multiset().add(
                timer_fds(after.entries).to_multiset(),
            ));
        },
        Call::UnregisterEventHandler { handler } => {
            let k = first_of_handler(books.entries, Handler::Event(handler));
            lemma_len_before_bounds(handlers_of(books.entries), Handler::Event(handler));
            if k < books.entries.len() {
                assert(handlers_of(books.entries)[k] == books.entries[k].1);
                lemma_timers_after_remove(books.entries, k);
            }
        },
        Call::UnregisterTimer { handler } => {
            let k = first_of_handler(books.entries, Handler::Timer(handler));
            lemma_len_before_bounds(handlers_of(books.entries), Handler::Timer(handler));
            if k < books.entries.len() {
                assert(handlers_of(books.entries)[k] == books.entries[k].1);
                lemma_timers_after_remove(books.entries, k);
                let fd = books.entries[k].0;
                let rank = timers_before(books.entries, k);
                vstd::seq_lib::to_multiset_remove(timers, rank);
                vstd::seq_lib::to_multiset_build(books.closed, fd);
                timers.to_multiset_ensures();
                assert(timers.contains(fd)) by {
                    assert(timers[rank] == fd);
                }
                assert(after.created.to_multiset() =~= after.closed.to_multiset().add(
                    timer_fds(after.entries).to_multiset(),
                ));
            }
        },
        Call::Stop => {
            if books.running {
                lemma_stop_leaves_no_timer(books.entries);
                vstd::seq_lib::lemma_multiset_commutative(books.closed, timers);
                assert(timer_fds(after.entries).to_multiset() =~= vstd::multiset::Multiset::<
                    i32,
                >::empty()) by {
                    timer_fds(after.entries).to_multiset_ensures();
                }
                assert(after.created.to_multiset() =~= after.closed.to_multiset().add(
                    timer_fds(after.entries).to_multiset(),
                ));
            }
        },
    }
}

/// Whatever is called on a run loop, in whatever order and however often:
/// every timer that was created for a registration is at every moment
/// either still registered or closed exactly once, by `unregister_timer`
/// or by `stop` and never by both.
pub proof fn lemma_timers_closed_once(calls: Seq<Call>)
    ensures
        timers_balance(after_calls(new_books(), calls)),
    decreases calls.len(),
{
    if calls.len() == 0 {
        broadcast use vstd::multiset::group_multiset_axioms;

        Seq::<i32>::empty().to_multiset_ensures();
        assert(timer_fds(new_books().entries) =~= Seq::<i32>::empty());
        assert(new_books().created.to_multiset() =~= new_books().closed.to_multiset().add(
            timer_fds(new_books().entries).to_multiset(),
        ));
    } else {
        lemma_timers_closed_once(calls.drop_last());
        lemma_call_keeps_balance(after_calls(new_books(), calls.drop_last()), calls.last());
    }
}

/// Once a running loop is stopped, every timer that was created for a
/// registration before has been closed exactly once, and none is
/// registered any more.
pub proof fn lemma_stop_closes_every_timer(calls: Seq<Call>)
    requires
        after_calls(new_books(), calls).running,
    ensures
        timer_fds(after_calls(new_books(), calls.push(Call::Stop)).entries) == Seq::<i32>::empty(),
        after_calls(new_books(), calls.push(Call::Stop)).closed.to_multiset() == after_calls(
            new_books(),
            calls,
        ).created.to_multiset(),
{
    broadcast use vstd::multiset::group_multiset_axioms;

    let before = after_calls(new_books(), calls);
    let after = after_calls(new_books(), calls.push(Call::Stop));
    assert(calls.push(Call::Stop).drop_last() =~= calls);
    assert(after == after_call(before, Call::Stop));
    lemma_timers_closed_once(calls.push(Call::Stop));
    lemma_stop_leaves_no_timer(before.entries);
    Seq::<i32>::empty().to_multiset_ensures();
    assert(after.closed.to_multiset() =~= after.created.to_multiset());
}

/// A call to unregister a timer handler that has no registration closes
/// nothing and changes nothing.
pub proof fn lemma_unregister_unknown_timer(books: Books, handler: usize)
    requires
        !handlers_of(books.entries).contains(Handler::Timer(handler)),
    ensures
        after_call(books, Call::UnregisterTimer { handler }) == books,
{
    lemma_len_before_bounds(handlers_of(books.entries), Handler::Timer(handler));
    let k = first_of_handler(books.entries, Handler::Timer(handler));
    if k < books.entries.len() {
        assert(handlers_of(books.entries).contains(handlers_of(books.entries)[k]));
    }
}

} // verus!
