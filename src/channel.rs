use vstd::prelude::*;

verus! {

/// Number of worker threads a default configuration asks for.
pub const DEFAULT_WORKER_NUMBER: usize = 8;

/// Stack size of each worker thread in a default configuration (2 MiB).
pub const DEFAULT_STACK_SIZE: usize = 2097152;

/// Why a configuration setter refused its argument; the configuration is left unchanged.
#[derive(Debug, Clone, Copy, PartialEq, Eq, Structural)]
pub enum ConfigError {
    /// At least one worker thread is needed.
    NoWorker,
    /// The derived envelope budget (twice the worker number) does not fit in `usize`.
    TooManyWorkers,
    /// The envelope budget must exceed the worker number.
    NotEnoughPackages,
}

/// The tunables of a pool: worker number, envelope budget, queue capacity and stack size.
pub struct ChannelConfig {
    stack_size: usize,
    worker_number: usize,
    package_number: usize,
    channel_size: usize,
}

impl ChannelConfig {
    pub closed spec fn stack_size_spec(&self) -> nat {
        self.stack_size as nat
    }

    pub closed spec fn worker_number_spec(&self) -> nat {
        self.worker_number as nat
    }

    pub closed spec fn package_number_spec(&self) -> nat {
        self.package_number as nat
    }

    pub closed spec fn channel_size_spec(&self) -> nat {
        self.channel_size as nat
    }

    /// Every configuration keeps at least one worker, one spare envelope beyond
    /// one per worker, and queues as long as the worker number.
    pub open spec fn wf(&self) -> bool {
        &&& self.worker_number_spec() >= 1
        &&& self.package_number_spec() > self.worker_number_spec()
        &&& self.channel_size_spec() == self.worker_number_spec()
    }

    /// A configuration with the default values: 8 workers, queues of 8,
    /// a budget of 16 envelopes and 2 MiB of stack per worker.
    pub fn new() -> (r: Self)
        ensures
            r.wf(),
            r.worker_number_spec() == DEFAULT_WORKER_NUMBER,
            r.channel_size_spec() == DEFAULT_WORKER_NUMBER,
            r.package_number_spec() == 2 * DEFAULT_WORKER_NUMBER,
            r.stack_size_spec() == DEFAULT_STACK_SIZE,
    {
        let worker_number: usize = DEFAULT_WORKER_NUMBER;
        let channel_size: usize = worker_number;
        let package_number: usize = channel_size * 2;
        ChannelConfig { stack_size: DEFAULT_STACK_SIZE, worker_number, package_number, channel_size }
    }

    /// Sets the worker number; the queue capacity follows it and the envelope
    /// budget is reset to twice its value.
    pub fn set_worker_number(&mut self, worker_number: usize) -> (r: Result<(), ConfigError>)
        requires
            old(self).wf(),
        ensures
            final(self).wf(),
            worker_number < 1 ==> r == Err::<(), ConfigError>(ConfigError::NoWorker),
            worker_number >= 1 && worker_number > usize::MAX / 2 ==> r == Err::<(), ConfigError>(
                ConfigError::TooManyWorkers,
            ),
            r is Ok <==> 1 <= worker_number <= usize::MAX / 2,
            r is Ok ==> {
                &&& final(self).worker_number_spec() == worker_number
                &&& final(self).channel_size_spec() == worker_number
                &&& final(self).package_number_spec() == 2 * worker_number
                &&& final(self).stack_size_spec() == old(self).stack_size_spec()
            },
            r is Err ==> *final(self) == *old(self),
    {
        if worker_number < 1 {
            return Err(ConfigError::NoWorker);
        }
        if worker_number > usize::MAX / 2 {
            return Err(ConfigError::TooManyWorkers);
        }
        self.worker_number = worker_number;
        self.channel_size = worker_number;
        self.package_number = worker_number * 2;
        Ok(())
    }

    /// Sets the envelope budget, which must exceed the worker number.
    pub fn set_package_number(&mut self, package_number: usize) -> (r: Result<(), ConfigError>)
        requires
            old(self).wf(),
        ensures
            final(self).wf(),
            r is Ok <==> package_number > old(self).worker_number_spec(),
            r is Err ==> r == Err::<(), ConfigError>(ConfigError::NotEnoughPackages),
            r is Ok ==> {
                &&& final(self).package_number_spec() == package_number
                &&& final(self).worker_number_spec() == old(self).worker_number_spec()
                &&& final(self).channel_size_spec() == old(self).channel_size_spec()
                &&& final(self).stack_size_spec() == old(self).stack_size_spec()
            },
            r is Err ==> *final(self) == *old(self),
    {
        if package_number <= self.worker_number {
            return Err(ConfigError::NotEnoughPackages);
        }
        self.package_number = package_number;
        Ok(())
    }

    /// Sets the stack size of each worker thread; the value is not checked.
    pub fn set_stack_size(&mut self, new_stack_size: usize)
        requires
            old(self).wf(),
        ensures
            final(self).wf(),
            final(self).stack_size_spec() == new_stack_size,
            final(self).worker_number_spec() == old(self).worker_number_spec(),
            final(self).package_number_spec() == old(self).package_number_spec(),
            final(self).channel_size_spec() == old(self).channel_size_spec(),
    {
        self.stack_size = new_stack_size;
    }

    pub fn get_stack_size(&self) -> (r: usize)
        ensures
            r == self.stack_size_spec(),
    {
        self.stack_size
    }

    pub fn get_worker_number(&self) -> (r: usize)
        ensures
            r == self.worker_number_spec(),
    {
        self.worker_number
    }

    pub fn get_package_number(&self) -> (r: usize)
        ensures
            r == self.package_number_spec(),
    {
        self.package_number
    }

    pub fn get_channel_size(&self) -> (r: usize)
        ensures
            r == self.channel_size_spec(),
    {
        self.channel_size
    }
}

impl Default for ChannelConfig {
    fn default() -> (r: Self)
        ensures
            r.wf(),
            r.worker_number_spec() == DEFAULT_WORKER_NUMBER,
            r.channel_size_spec() == DEFAULT_WORKER_NUMBER,
            r.package_number_spec() == 2 * DEFAULT_WORKER_NUMBER,
            r.stack_size_spec() == DEFAULT_STACK_SIZE,
    {
        ChannelConfig::new()
    }
}

} // verus!
