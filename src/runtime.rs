//! Configuration of the worker pool that runs every asynchronous operation.

use vstd::prelude::*;

verus! {

/// Name and size of the worker pool.
pub struct AsyncNatsTokioRuntimeConfig {
    thread_name: String,
    thread_count: usize,
}

impl AsyncNatsTokioRuntimeConfig {
    pub closed spec fn thread_name_spec(&self) -> Seq<char> {
        self.thread_name@
    }

    pub closed spec fn thread_count_spec(&self) -> nat {
        self.thread_count as nat
    }

    /// The default configuration: threads named `tokio_runtime`, one per
    /// unit of available parallelism, or a single one when that is unknown.
    pub fn with_parallelism(available: Option<usize>) -> (r: AsyncNatsTokioRuntimeConfig)
        ensures
            r.thread_name_spec() == "tokio_runtime"@,
            r.thread_count_spec() == match available {
                Some(n) => if n > 0 {
                    n as nat
                } else {
                    1
                },
                None => 1,
            },
    {
        let thread_count = match available {
            Some(n) => if n > 0 {
                n
            } else {
                1
            },
            None => 1,
        };
        AsyncNatsTokioRuntimeConfig { thread_name: String::from_str("tokio_runtime"), thread_count }
    }

    pub fn set_thread_name(&mut self, name: String)
        ensures
            final(self).thread_name_spec() == name@,
            final(self).thread_count_spec() == old(self).thread_count_spec(),
    {
        self.thread_name = name;
    }

    pub fn set_thread_count(&mut self, count: u32)
        ensures
            final(self).thread_count_spec() == count as nat,
            final(self).thread_name_spec() == old(self).thread_name_spec(),
    {
        self.thread_count = count as usize;
    }

    pub fn thread_name(&self) -> (r: &String)
        ensures
            r@ == self.thread_name_spec(),
    {
        &self.thread_name
    }

    pub fn thread_count(&self) -> (r: usize)
        ensures
            r as nat == self.thread_count_spec(),
    {
        self.thread_count
    }
}

} // verus!
