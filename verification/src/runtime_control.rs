//! The host-side picture of the Halide runtime's mutable configuration:
//! thread pool size, trace destination and memoization cache budget.
//!
//! The runtime itself lives in the library a generator emits, and is driven
//! through foreign calls; here each control call is a verified transition on
//! a [`RuntimeSettings`] value that records the configuration it establishes
//! and appends the request to an ordered log. A program owning the foreign
//! boundary replays the log against the real runtime.

use vstd::prelude::*;

verus! {

/// One request the host makes of the runtime.
#[derive(Debug, Clone, Copy, PartialEq, Eq, Structural)]
pub enum RuntimeAction {
    /// Size the thread pool: 0 = a reasonable default, 1 = serial execution,
    /// n > 1 = a pool of exactly n threads.
    SetNumThreads(i32),
    /// Send binary trace events to this file descriptor; 0 = human-readable
    /// standard output.
    SetTraceFile(i32),
    /// Release the resources of the default thread pool.
    ShutdownThreadPool,
    /// Close the trace file, flushing the trace.
    ShutdownTrace,
    /// Print timing statistics for everything run since the last reset.
    ProfilerReport,
    /// Reset the profiler's accumulated statistics.
    ProfilerReset,
    /// Set the soft maximum, in bytes, of the memoization cache.
    CacheSetSize(i64),
}

/// The configuration the control calls so far have established, and the
/// log of requests in the order they were made.
pub struct RuntimeSettings {
    /// Threads requested for the pool; 0 until chosen.
    pub num_threads: i32,
    /// File descriptor for binary trace events; 0 = human-readable stdout.
    pub trace_file: i32,
    /// Soft maximum, in bytes, of the memoization cache; 0 until chosen.
    pub cache_size: i64,
    /// Every request made, oldest first.
    pub actions: Vec<RuntimeAction>,
}

impl RuntimeSettings {
    /// Everything but the log is as `other` left it.
    pub open spec fn same_config(self, other: RuntimeSettings) -> bool {
        &&& self.num_threads == other.num_threads
        &&& self.trace_file == other.trace_file
        &&& self.cache_size == other.cache_size
    }

    /// The untouched runtime: default thread pool, traces to stdout, no
    /// cache budget chosen, nothing requested yet.
    pub fn new() -> (r: RuntimeSettings)
        ensures
            r.num_threads == 0,
            r.trace_file == 0,
            r.cache_size == 0,
            r.actions@ == Seq::<RuntimeAction>::empty(),
    {
        RuntimeSettings { num_threads: 0, trace_file: 0, cache_size: 0, actions: Vec::new() }
    }

    /// Set the number of threads used by the thread pool and hand back the
    /// old number. A negative count is an error condition of the runtime and
    /// is refused here.
    pub fn halide_set_num_threads(&mut self, n: i32) -> (r: i32)
        requires
            n >= 0,
        ensures
            r == old(self).num_threads,
            final(self).num_threads == n,
            final(self).trace_file == old(self).trace_file,
            final(self).cache_size == old(self).cache_size,
            final(self).actions@ == old(self).actions@.push(RuntimeAction::SetNumThreads(n)),
    {
        let previous = self.num_threads;
        self.num_threads = n;
        self.actions.push(RuntimeAction::SetNumThreads(n));
        previous
    }

    /// Choose the file descriptor that receives binary trace events; 0 means
    /// human-readable standard output.
    pub fn halide_set_trace_file(&mut self, fd: i32)
        ensures
            final(self).trace_file == fd,
            final(self).num_threads == old(self).num_threads,
            final(self).cache_size == old(self).cache_size,
            final(self).actions@ == old(self).actions@.push(RuntimeAction::SetTraceFile(fd)),
    {
        self.trace_file = fd;
        self.actions.push(RuntimeAction::SetTraceFile(fd));
    }

    /// Release the resources of the default thread pool; the next pipeline
    /// run sizes a fresh pool, so the requested count returns to 0.
    pub fn halide_shutdown_thread_pool(&mut self)
        ensures
            final(self).num_threads == 0,
            final(self).trace_file == old(self).trace_file,
            final(self).cache_size == old(self).cache_size,
            final(self).actions@ == old(self).actions@.push(RuntimeAction::ShutdownThreadPool),
    {
        self.num_threads = 0;
        self.actions.push(RuntimeAction::ShutdownThreadPool);
    }

    /// Close the trace file, flushing the trace; returns 0 on success.
    /// Tracing falls back to standard output afterwards.
    pub fn halide_shutdown_trace(&mut self) -> (r: i32)
        ensures
            r == 0,
            final(self).trace_file == 0,
            final(self).num_threads == old(self).num_threads,
            final(self).cache_size == old(self).cache_size,
            final(self).actions@ == old(self).actions@.push(RuntimeAction::ShutdownTrace),
    {
        self.trace_file = 0;
        self.actions.push(RuntimeAction::ShutdownTrace);
        0
    }

    /// Ask for the timing statistics gathered since the last reset; the
    /// configuration is untouched.
    pub fn halide_profiler_report(&mut self)
        ensures
            final(self).same_config(*old(self)),
            final(self).actions@ == old(self).actions@.push(RuntimeAction::ProfilerReport),
    {
        self.actions.push(RuntimeAction::ProfilerReport);
    }

    /// Reset the profiler's accumulated statistics; the configuration is
    /// untouched.
    pub fn halide_profiler_reset(&mut self)
        ensures
            final(self).same_config(*old(self)),
            final(self).actions@ == old(self).actions@.push(RuntimeAction::ProfilerReset),
    {
        self.actions.push(RuntimeAction::ProfilerReset);
    }

    /// Set the soft maximum amount of memory, in bytes, that the cache uses
    /// to memoize results.
    pub fn halide_memoization_cache_set_size(&mut self, size: i64)
        ensures
            final(self).cache_size == size,
            final(self).num_threads == old(self).num_threads,
            final(self).trace_file == old(self).trace_file,
            final(self).actions@ == old(self).actions@.push(RuntimeAction::CacheSetSize(size)),
    {
        self.cache_size = size;
        self.actions.push(RuntimeAction::CacheSetSize(size));
    }
}

} // verus!
