use crate::error::ThreadError;
use core::marker::PhantomData;
use vstd::prelude::*;

verus! {

/// The status code with which every primitive of the provider reports success.
pub const STATUS_OK: i32 = 0;

/// An owned thread: a thread that the provider has started and nobody has joined yet.
///
/// A handle comes into being in [`spawn`] and nowhere else, and it ends in exactly one
/// of [`Thread::join`] and [`Thread::cleanup`], both of which consume it. The type
/// parameter remembers what the thread's computation returns; no value of that type
/// is stored in the handle.
#[must_use]
pub struct Thread<A> {
    thread: usize,
    result: PhantomData<A>,
}

impl<A> View for Thread<A> {
    type V = usize;

    /// A handle is its native thread identifier.
    closed spec fn view(&self) -> usize {
        self.thread
    }
}

/// What a join hands back, given the provider's status code and the result box that it
/// recovered: the value in the box if the join succeeded and there is a box, a failed
/// join otherwise.
pub open spec fn join_outcome<A>(status: i32, result: Option<Box<A>>) -> Result<A, ThreadError> {
    match result {
        Some(value) if status == STATUS_OK => Ok(*value),
        _ => Err(ThreadError::JoinFailed),
    }
}

/// What a cleanup reports: success exactly when a join on the same report would have
/// succeeded, with the value gone.
pub open spec fn cleanup_outcome<A>(status: i32, result: Option<Box<A>>) -> Result<(), ThreadError> {
    match join_outcome(status, result) {
        Ok(_) => Ok(()),
        Err(e) => Err(e),
    }
}

/// What a yield reports, given the provider's status code.
pub open spec fn yield_outcome(status: i32) -> Result<(), ThreadError> {
    if status == STATUS_OK {
        Ok(())
    } else {
        Err(ThreadError::YieldFailed)
    }
}

/// The body of every spawned thread: takes the boxed computation over, runs it once,
/// and boxes what it returned.
///
/// The box that comes back is the thread's result; it is the one that the provider
/// later recovers for [`Thread::join`] or [`Thread::cleanup`]. The computation is
/// taken by value, so it cannot run a second time, and for a result type that the
/// shim knows nothing of, running it is the only way to a value that meets its
/// postcondition.
pub fn shim<A, F>(start_routine: Box<F>) -> (result: Box<A>) where
    F: FnOnce() -> A,
    F: Send + 'static,
    A: Send + 'static,

    requires
        start_routine.requires(()),
    ensures
        start_routine.ensures((), *result),
{
    Box::new(start_routine())
}

/// Turns the provider's answer to a create request into a handle.
///
/// `thread` is the identifier that the provider wrote and `status` its status code.
/// A handle exists afterwards exactly when the provider started the thread; the
/// identifier of a failed request is not looked at.
pub fn spawn<A>(thread: usize, status: i32) -> (handle: Result<Thread<A>, ThreadError>) where
    A: Send + 'static,

    ensures
        status == STATUS_OK ==> handle is Ok && handle.unwrap()@ == thread,
        status != STATUS_OK ==> handle == Err::<Thread<A>, ThreadError>(ThreadError::CreationFailed),
{
    if status == STATUS_OK {
        Ok(Thread { thread, result: PhantomData })
    } else {
        Err(ThreadError::CreationFailed)
    }
}

impl<A> Thread<A> {
    /// The identifier to hand to the provider's join primitive.
    pub fn native_id(&self) -> (id: usize)
        ensures
            id == self@,
    {
        self.thread
    }

    /// Ends the handle with the value that its thread computed.
    ///
    /// To be called once the provider's join primitive has returned for
    /// [`Thread::native_id`], with its status code and the result box that it
    /// recovered, if any. The value is taken out of the box and handed over.
    pub fn join(self, status: i32, result: Option<Box<A>>) -> (value: Result<A, ThreadError>)
        ensures
            value == join_outcome(status, result),
    {
        match result {
            Some(boxed) => {
                if status == STATUS_OK {
                    Ok(*boxed)
                } else {
                    Err(ThreadError::JoinFailed)
                }
            },
            None => Err(ThreadError::JoinFailed),
        }
    }

    /// Ends a handle that nobody joined: the same join, with the value thrown away.
    ///
    /// This is what the destructor of the embedding program's handle calls, after the
    /// provider's join primitive has returned, so that no started thread outlives its
    /// handle.
    pub fn cleanup(self, status: i32, result: Option<Box<A>>) -> (outcome: Result<(), ThreadError>)
        ensures
            outcome == cleanup_outcome(status, result),
    {
        match self.join(status, result) {
            Ok(_) => Ok(()),
            Err(e) => Err(e),
        }
    }
}

/// Says whether the current thread gave up the rest of its time slice, given the status
/// code of the provider's yield primitive.
///
/// Nothing but the status code goes in and nothing but the verdict comes out: a yield
/// changes no state of the program.
pub fn deschedule(status: i32) -> (outcome: Result<(), ThreadError>)
    ensures
        outcome == yield_outcome(status),
{
    if status == STATUS_OK {
        Ok(())
    } else {
        Err(ThreadError::YieldFailed)
    }
}

} // verus!
