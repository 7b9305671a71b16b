//! Threads: how a backend's builder is configured and told to spawn.

use vstd::prelude::*;

verus! {

/// Why a thread could not be spawned.
#[derive(Debug, PartialEq, Eq, Structural, Clone, Copy)]
pub enum SpawnError {
    /// The kernel had no room for another thread, or the configuration
    /// cannot be met.
    SpawnFailed,
}

/// The configuration of a thread that is about to be spawned.
///
/// A backend implements this for its own builder. Configuring has no effect
/// until `spawn` is called, which consumes the builder.
pub trait BuilderExt where Self: Sized {
    /// The handle on which the spawned thread is joined.
    type JoinHandle: Send + 'static;

    /// A builder with the backend's defaults.
    fn new() -> Self;

    /// Names the thread.
    fn name(self, name: &'static str) -> Self;

    /// Sets the size of the thread's stack in bytes. A backend that sizes
    /// stacks itself leaves the builder as it is.
    fn stack_size(self, _stack_size: i32) -> (builder: Self)
        default_ensures
            builder == self,
    {
        self
    }

    /// Sets the priority of the thread. A backend without priorities leaves
    /// the builder as it is.
    fn priority(self, _priority: u32) -> (builder: Self)
        default_ensures
            builder == self,
    {
        self
    }

    /// Sets backend-specific creation flags. A backend without such flags
    /// leaves the builder as it is.
    fn flags(self, _flags: i32) -> (builder: Self)
        default_ensures
            builder == self,
    {
        self
    }

    /// What the backend promises of the outcome of spawning with this
    /// configuration: whether `handle` is an outcome that `spawn` can have.
    /// A backend that promises nothing leaves this as it is.
    open spec fn spawns(self, handle: Result<Self::JoinHandle, SpawnError>) -> bool {
        true
    }

    /// Spawns a thread that runs `f`, or reports that the kernel refused.
    /// The outcome is one that the backend promises.
    fn spawn<F>(self, f: F) -> (handle: Result<Self::JoinHandle, SpawnError>) where
        F: FnOnce() -> (),
        F: Send + 'static,
        ensures
            self.spawns(handle),
    ;
}

/// A builder of the selected backend, configured through [`BuilderExt`].
pub struct Builder<T>(T);

impl<T> Builder<T> {
    /// The backend's builder that this one configures.
    pub closed spec fn inner(self) -> T {
        self.0
    }
}

impl<T: BuilderExt> BuilderExt for Builder<T> {
    type JoinHandle = T::JoinHandle;

    fn new() -> (builder: Self)
        ensures
            call_ensures(T::new, (), builder.inner()),
    {
        Builder(T::new())
    }

    fn name(self, name: &'static str) -> (builder: Self)
        ensures
            call_ensures(T::name, (self.inner(), name), builder.inner()),
    {
        Builder(self.0.name(name))
    }

    fn stack_size(self, stack_size: i32) -> (builder: Self)
        ensures
            call_ensures(T::stack_size, (self.inner(), stack_size), builder.inner()),
    {
        Builder(self.0.stack_size(stack_size))
    }

    fn priority(self, priority: u32) -> (builder: Self)
        ensures
            call_ensures(T::priority, (self.inner(), priority), builder.inner()),
    {
        Builder(self.0.priority(priority))
    }

    fn flags(self, flags: i32) -> (builder: Self)
        ensures
            call_ensures(T::flags, (self.inner(), flags), builder.inner()),
    {
        Builder(self.0.flags(flags))
    }

    open spec fn spawns(self, handle: Result<Self::JoinHandle, SpawnError>) -> bool {
        self.inner().spawns(handle)
    }

    fn spawn<F>(self, f: F) -> (handle: Result<Self::JoinHandle, SpawnError>) where
        F: FnOnce() -> (),
        F: Send + 'static,
        ensures
            self.inner().spawns(handle),
    {
        self.0.spawn(f)
    }
}

/// Spawns a thread with the defaults of the builder `B`: the outcome is one
/// that the backend promises of a builder that `B::new` makes.
pub fn spawn<F, B>(f: F) -> (handle: Result<B::JoinHandle, SpawnError>) where
    F: FnOnce() -> (),
    F: Send + 'static,
    B: BuilderExt,
    ensures
        exists|builder: B| call_ensures(B::new, (), builder) && builder.spawns(handle),
{
    B::new().spawn(f)
}

} // verus!
