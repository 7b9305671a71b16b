//! Threads of the RIOT kernel.
//!
//! A thread runs on a stack that its creator owns. The creator sizes the
//! stack, hands it to the kernel together with a priority and creation
//! flags, and keeps it alive inside the join handle for as long as the thread
//! may run.

use vstd::prelude::*;
use vstd::pervasive::unreached;
use core::marker::PhantomData;
use crate::io::{Error, ErrorKind};
use crate::thread::SpawnError;
use crate::time::Duration;

verus! {

broadcast use crate::sys::riot::io::Error::lemma_of_kind;

/// The priority of the kernel's main thread; lower numbers run first.
pub const THREAD_PRIORITY_MAIN: u32 = 7;

/// The stack size, in bytes, of a thread that asks for none.
pub const DEFAULT_STACK_SIZE: i32 = 512;

/// The identifier the kernel gives a thread: a positive number.
#[derive(Debug, PartialEq, Eq, Structural, Clone, Copy)]
pub struct ThreadId(pub i16);

/// A handle to a thread.
#[derive(Debug)]
pub struct Thread {
    id: ThreadId,
}

impl Thread {
    /// The identifier of the thread.
    pub closed spec fn spec_id(&self) -> ThreadId {
        self.id
    }

    /// The handle to the thread that the kernel knows as `id`.
    pub fn new(id: ThreadId) -> (thread: Thread)
        ensures
            thread.spec_id() == id,
    {
        Thread { id }
    }

    /// Gets the thread's unique identifier.
    #[verifier::when_used_as_spec(spec_id)]
    pub fn id(&self) -> (id: ThreadId)
        ensures
            id == self.spec_id(),
    {
        self.id
    }
}

/// An owned permission to join on a thread. It owns the stack the thread
/// runs on, from the moment the kernel was given it until the thread is
/// joined.
///
/// A handle is made while its thread runs. Once the kernel reports that the
/// thread has ended, `complete` records the result of the thread's work, and
/// `join` hands that result out and gives up the handle.
#[derive(Debug)]
pub struct JoinHandle<T = ()> {
    thread: Thread,
    stack_buffer: Vec<u8>,
    result: Option<()>,
    _marker: PhantomData<T>,
}

impl<T> JoinHandle<T> {
    /// The thread this handle joins on.
    pub closed spec fn spec_thread(&self) -> Thread {
        self.thread
    }

    /// The stack that the thread runs on.
    pub closed spec fn spec_stack_buffer(&self) -> Vec<u8> {
        self.stack_buffer
    }

    /// The result of the thread's work, once the thread has ended.
    pub closed spec fn spec_result(&self) -> Option<()> {
        self.result
    }

    /// Whether the thread has ended and its result is recorded.
    pub open spec fn spec_is_finished(&self) -> bool {
        self.spec_result() is Some
    }

    /// Extracts a handle to the underlying thread.
    pub fn thread(&self) -> (thread: &Thread)
        ensures
            *thread == self.spec_thread(),
    {
        &self.thread
    }

    /// The stack that the thread runs on.
    pub fn stack_buffer(&self) -> (stack: &Vec<u8>)
        ensures
            *stack == self.spec_stack_buffer(),
    {
        &self.stack_buffer
    }

    /// Whether the thread has ended and its result is recorded.
    #[verifier::when_used_as_spec(spec_is_finished)]
    pub fn is_finished(&self) -> (finished: bool)
        ensures
            finished == self.spec_is_finished(),
    {
        self.result.is_some()
    }

    /// Records that the thread has ended: its work has returned, and the
    /// result of the work is kept for `join`. Thread and stack stay as they
    /// are.
    pub fn complete(self) -> (done: JoinHandle<T>)
        ensures
            done.spec_result() == Some(()),
            done.spec_thread() == self.spec_thread(),
            done.spec_stack_buffer() == self.spec_stack_buffer(),
    {
        JoinHandle {
            thread: self.thread,
            stack_buffer: self.stack_buffer,
            result: Some(()),
            _marker: PhantomData,
        }
    }

    /// Hands out the result of the thread's work and gives up the handle,
    /// and with it the thread's stack. The thread has to have ended: a
    /// thread that still runs needs its stack.
    pub fn join(self) -> (result: ())
        requires
            self.spec_is_finished(),
        ensures
            Some(result) == self.spec_result(),
    {
        match self.result {
            Some(result) => result,
            None => unreached(),
        }
    }
}

/// Determines whether the current thread is unwinding because of a panic.
/// Threads of this kernel never unwind.
pub fn panicking() -> (unwinding: bool)
    ensures
        !unwinding,
{
    false
}

/// Puts the current thread to sleep for at least `duration`. The kernel has
/// no timed sleep: the call reports `NotSupported` and does not wait.
pub fn sleep(_duration: Duration) -> (result: Result<(), Error>)
    ensures
        result matches Err(e) && e.kind() == ErrorKind::NotSupported,
{
    Err(Error::from(ErrorKind::NotSupported))
}

/// Blocks until the current thread's token is made available or `duration`
/// has passed. The kernel has no timed wait: the call reports
/// `NotSupported` and does not wait.
pub fn park_timeout(_duration: Duration) -> (result: Result<(), Error>)
    ensures
        result matches Err(e) && e.kind() == ErrorKind::NotSupported,
{
    Err(Error::from(ErrorKind::NotSupported))
}

/// What the kernel is asked when a thread is created.
#[derive(Debug)]
pub struct SpawnRequest {
    /// The name of the thread.
    pub name: &'static str,
    /// The size of the thread's stack in bytes.
    pub stack_size: i32,
    /// The creation flags.
    pub flags: i32,
    /// The priority; lower numbers run first.
    pub priority: u32,
}

/// Thread configuration: every setting is optional.
pub struct Builder {
    name: Option<&'static str>,
    stack_size: Option<i32>,
    priority: Option<u32>,
    flags: Option<i32>,
}

impl Builder {
    /// The name that was set, if any.
    pub closed spec fn spec_name(&self) -> Option<&'static str> {
        self.name
    }

    /// The stack size that was set, if any.
    pub closed spec fn spec_stack_size(&self) -> Option<i32> {
        self.stack_size
    }

    /// The priority that was set, if any.
    pub closed spec fn spec_priority(&self) -> Option<u32> {
        self.priority
    }

    /// The creation flags that were set, if any.
    pub closed spec fn spec_flags(&self) -> Option<i32> {
        self.flags
    }

    /// The request that `spawn` makes of the kernel: each setting, or its
    /// default where none was made.
    pub open spec fn spec_request(&self) -> SpawnRequest {
        SpawnRequest {
            name: match self.spec_name() {
                Some(name) => name,
                None => "rust_thread",
            },
            stack_size: match self.spec_stack_size() {
                Some(size) => size,
                None => DEFAULT_STACK_SIZE,
            },
            flags: match self.spec_flags() {
                Some(flags) => flags,
                None => 0,
            },
            priority: match self.spec_priority() {
                Some(priority) => priority,
                None => (THREAD_PRIORITY_MAIN - 1) as u32,
            },
        }
    }

    /// A configuration with nothing set.
    pub fn new() -> (builder: Builder)
        ensures
            builder.spec_name() is None,
            builder.spec_stack_size() is None,
            builder.spec_priority() is None,
            builder.spec_flags() is None,
    {
        Builder { name: None, stack_size: None, priority: None, flags: None }
    }

    /// Names the thread.
    pub fn name(self, name: &'static str) -> (builder: Builder)
        ensures
            builder.spec_name() == Some(name),
            builder.spec_stack_size() == self.spec_stack_size(),
            builder.spec_priority() == self.spec_priority(),
            builder.spec_flags() == self.spec_flags(),
    {
        let mut builder = self;
        builder.name = Some(name);
        builder
    }

    /// Sets the size of the thread's stack in bytes.
    pub fn stack_size(self, stack_size: i32) -> (builder: Builder)
        ensures
            builder.spec_name() == self.spec_name(),
            builder.spec_stack_size() == Some(stack_size),
            builder.spec_priority() == self.spec_priority(),
            builder.spec_flags() == self.spec_flags(),
    {
        let mut builder = self;
        builder.stack_size = Some(stack_size);
        builder
    }

    /// Sets the priority of the thread; lower numbers run first.
    pub fn priority(self, priority: u32) -> (builder: Builder)
        ensures
            builder.spec_name() == self.spec_name(),
            builder.spec_stack_size() == self.spec_stack_size(),
            builder.spec_priority() == Some(priority),
            builder.spec_flags() == self.spec_flags(),
    {
        let mut builder = self;
        builder.priority = Some(priority);
        builder
    }

    /// Sets the creation flags.
    pub fn flags(self, flags: i32) -> (builder: Builder)
        ensures
            builder.spec_name() == self.spec_name(),
            builder.spec_stack_size() == self.spec_stack_size(),
            builder.spec_priority() == self.spec_priority(),
            builder.spec_flags() == Some(flags),
    {
        let mut builder = self;
        builder.flags = Some(flags);
        builder
    }

    /// Settles the configuration: what was not set takes its default. The
    /// thread is called `rust_thread`, gets a stack of
    /// [`DEFAULT_STACK_SIZE`] bytes, no flags, and runs just ahead of the
    /// main thread.
    pub fn request(self) -> (request: SpawnRequest)
        ensures
            request == self.spec_request(),
    {
        let Builder { name, stack_size, flags, priority } = self;
        SpawnRequest {
            name: match name {
                Some(name) => name,
                None => "rust_thread",
            },
            stack_size: match stack_size {
                Some(size) => size,
                None => DEFAULT_STACK_SIZE,
            },
            flags: match flags {
                Some(flags) => flags,
                None => 0,
            },
            priority: match priority {
                Some(priority) => priority,
                None => THREAD_PRIORITY_MAIN - 1,
            },
        }
    }
}

impl Default for Builder {
    fn default() -> (builder: Builder)
        ensures
            builder.spec_name() is None,
            builder.spec_stack_size() is None,
            builder.spec_priority() is None,
            builder.spec_flags() is None,
    {
        Builder::new()
    }
}

/// The stack of a thread before the thread has run: `size` bytes, all zero.
pub open spec fn fresh_stack(size: int) -> Seq<u8> {
    Seq::new(size as nat, |i: int| 0u8)
}

impl SpawnRequest {
    /// Allocates the stack of the thread: a buffer of `stack_size` bytes,
    /// all zero, for the kernel to run the thread on. A thread cannot run
    /// on a stack without bytes: a size that is not positive cannot be met.
    pub fn stack(&self) -> (stack: Result<Vec<u8>, SpawnError>)
        ensures
            stack is Ok <==> self.stack_size > 0,
            stack matches Ok(buffer) ==> buffer@ == fresh_stack(self.stack_size as int),
    {
        if self.stack_size <= 0 {
            Err(SpawnError::SpawnFailed)
        } else {
            let buffer: Vec<u8> = vec![0u8; self.stack_size as usize];
            assert(buffer@ =~= fresh_stack(self.stack_size as int));
            Ok(buffer)
        }
    }
}

/// Concludes the creation of a thread. The kernel answers with the
/// identifier of the new thread, a positive number, or with a number that is
/// not positive where it created none. The handle takes over the stack that
/// the kernel was given, and holds no result while the thread runs.
pub fn spawn_inner(id: i16, stack_buffer: Vec<u8>) -> (handle: Result<JoinHandle<()>, SpawnError>)
    ensures
        handle is Ok <==> id > 0,
        handle matches Ok(h) ==> {
            &&& h.spec_thread().spec_id() == ThreadId(id)
            &&& h.spec_stack_buffer() == stack_buffer
            &&& h.spec_result() is None
        },
{
    if id > 0 {
        Ok(
            JoinHandle {
                thread: Thread::new(ThreadId(id)),
                stack_buffer,
                result: None,
                _marker: PhantomData,
            },
        )
    } else {
        Err(SpawnError::SpawnFailed)
    }
}

} // verus!
