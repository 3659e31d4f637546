use crate::error::{check_config, ConfigStep, GpuError, NATIVE_OK};
use core::marker::PhantomData;
use std::cell::Cell;
use vstd::prelude::*;

verus! {

/// `std::cell::Cell`, declared so that a marker field can name it. It is
/// `Send` but not `Sync`, and nothing in this crate looks inside one.
#[verifier::external_type_specification]
#[verifier::external_body]
#[verifier::reject_recursive_types(T)]
pub struct ExCell<T: ?Sized>(Cell<T>);

/// How a pool provides scratch memory to the workloads that run on it.
#[derive(Debug, Clone, Copy, PartialEq, Eq, Structural)]
pub enum TempMemory {
    /// The engine's own default arena.
    EngineDefault,
    /// No arena: scratch memory is allocated on the device at the point of use.
    Disabled,
    /// A fixed arena of this many bytes, shared across the pool's workloads.
    Fixed(usize),
    /// An arena sized as a fraction of each device's memory. The fraction is
    /// held as the bit pattern of an IEEE-754 single-precision number and is
    /// handed to the engine unchanged.
    Fraction(u32),
}

/// The configuration that the engine has accepted for a pool.
#[derive(Debug, Clone, Copy, PartialEq, Eq, Structural)]
pub struct GpuConfig {
    pub temp: TempMemory,
    /// Bytes of pinned host memory for transfers; `None` while the engine's
    /// default applies.
    pub pinned: Option<usize>,
}

/// The configuration of a pool that no configuration call has touched.
pub open spec fn engine_default() -> GpuConfig {
    GpuConfig { temp: TempMemory::EngineDefault, pinned: None }
}

/// The scratch-memory policy that a fixed-size request sets: a zero-byte
/// arena is no arena at all.
pub open spec fn temp_of_size(size: usize) -> TempMemory {
    if size == 0 {
        TempMemory::Disabled
    } else {
        TempMemory::Fixed(size)
    }
}

/// `c` with its scratch-memory policy replaced by `t`.
pub open spec fn with_temp(c: GpuConfig, t: TempMemory) -> GpuConfig {
    GpuConfig { temp: t, pinned: c.pinned }
}

/// `c` with its pinned host memory set to `size` bytes.
pub open spec fn with_pinned(c: GpuConfig, size: usize) -> GpuConfig {
    GpuConfig { temp: c.temp, pinned: Some(size) }
}

/// The standard resource pool: the sole owner of one native device-resource
/// object, identified by its raw handle.
///
/// The pool is never copied, so exactly one value stands for each native
/// object. It may be moved to another thread, but it is not `Sync`: a shared
/// reference to it cannot reach a second thread, so the engine's
/// non-thread-safe object is never used from two threads at once.
pub struct StandardGpuResources {
    inner: usize,
    config: GpuConfig,
    single_thread: PhantomData<Cell<()>>,
}

impl StandardGpuResources {
    #[verifier::type_invariant]
    spec fn handle_is_live(&self) -> bool {
        self.inner != 0
    }

    /// The raw handle of the native object.
    pub closed spec fn handle(&self) -> usize {
        self.inner
    }

    /// The configuration that the engine has accepted for this pool.
    pub closed spec fn config(&self) -> GpuConfig {
        self.config
    }

    /// Decides what the engine's allocation call produced: it reported
    /// `status` and wrote `handle`. A pool comes into being only when the
    /// engine reported success and handed out a non-null handle; otherwise
    /// nothing is owned and nothing is left to release.
    pub fn new(status: i32, handle: usize) -> (r: Result<StandardGpuResources, GpuError>)
        ensures
            r is Ok <==> (status == NATIVE_OK && handle != 0),
            r matches Ok(p) ==> p.handle() == handle && p.config() == engine_default(),
            r matches Err(e) ==> e == (GpuError::NativeAllocation { code: status }),
    {
        if status == NATIVE_OK && handle != 0 {
            Ok(StandardGpuResources {
                inner: handle,
                config: GpuConfig { temp: TempMemory::EngineDefault, pinned: None },
                single_thread: PhantomData,
            })
        } else {
            Err(GpuError::NativeAllocation { code: status })
        }
    }

    /// The configuration that the engine has accepted for this pool.
    pub fn configuration(&self) -> (r: GpuConfig)
        ensures
            r == self.config(),
    {
        self.config
    }

    /// Ends the pool and hands back the handle that its owner must now pass
    /// to the engine's release call. The pool is consumed, so the handle is
    /// released once and no configuration call can follow. No configuration
    /// call needs to have been made before.
    pub fn release(self) -> (h: usize)
        ensures
            h == self.handle(),
            h != 0,
    {
        proof {
            use_type_invariant(&self);
        }
        self.inner
    }
}

/// What any provider of device resources offers: the raw handle of its pool,
/// and four configuration steps.
///
/// A configuration step is taken in two moves. The caller makes the engine's
/// call for that step on the handle from `inner_ptr` with the step's argument,
/// then hands the status it reported to the method of the same name, which
/// records the outcome and says whether the step failed. No step ever changes
/// the handle.
pub trait GpuResources {
    /// The raw handle of the pool behind this value.
    spec fn handle(&self) -> usize;

    /// The configuration that the engine has accepted for that pool.
    spec fn config(&self) -> GpuConfig;

    /// The raw handle of the native object, for binding an index to a device.
    fn inner_ptr(&self) -> (r: usize)
        ensures
            r == self.handle(),
            r != 0,
    ;

    /// Records the engine's answer to a request to allocate scratch memory at
    /// the point of use instead of from an arena.
    fn no_temp_memory(&mut self, status: i32) -> (r: Result<(), GpuError>)
        ensures
            final(self).handle() == old(self).handle(),
            r is Ok <==> status == NATIVE_OK,
            r is Ok ==> final(self).config() == with_temp(old(self).config(), TempMemory::Disabled),
            r is Err ==> final(self).config() == old(self).config(),
            r is Err ==> r == Err::<(), GpuError>(
                GpuError::AllocationConfig { step: ConfigStep::NoTempMemory, code: status },
            ),
    ;

    /// Records the engine's answer to a request for a fixed scratch arena of
    /// `size` bytes; zero bytes means no arena.
    fn set_temp_memory(&mut self, size: usize, status: i32) -> (r: Result<(), GpuError>)
        ensures
            final(self).handle() == old(self).handle(),
            r is Ok <==> status == NATIVE_OK,
            r is Ok ==> final(self).config() == with_temp(old(self).config(), temp_of_size(size)),
            r is Err ==> final(self).config() == old(self).config(),
            r is Err ==> r == Err::<(), GpuError>(
                GpuError::AllocationConfig { step: ConfigStep::TempMemory, code: status },
            ),
    ;

    /// Records the engine's answer to a request for a scratch arena sized as
    /// a fraction of device memory, given by its bit pattern. The fraction is
    /// not checked here: whether it is accepted is the engine's to say.
    fn set_temp_memory_fraction(&mut self, fraction_bits: u32, status: i32) -> (r: Result<
        (),
        GpuError,
    >)
        ensures
            final(self).handle() == old(self).handle(),
            r is Ok <==> status == NATIVE_OK,
            r is Ok ==> final(self).config() == with_temp(
                old(self).config(),
                TempMemory::Fraction(fraction_bits),
            ),
            r is Err ==> final(self).config() == old(self).config(),
            r is Err ==> r == Err::<(), GpuError>(
                GpuError::AllocationConfig { step: ConfigStep::TempMemoryFraction, code: status },
            ),
    ;

    /// Records the engine's answer to a request for `size` bytes of pinned
    /// host memory for transfers.
    fn set_pinned_memory(&mut self, size: usize, status: i32) -> (r: Result<(), GpuError>)
        ensures
            final(self).handle() == old(self).handle(),
            r is Ok <==> status == NATIVE_OK,
            r is Ok ==> final(self).config() == with_pinned(old(self).config(), size),
            r is Err ==> final(self).config() == old(self).config(),
            r is Err ==> r == Err::<(), GpuError>(
                GpuError::AllocationConfig { step: ConfigStep::PinnedMemory, code: status },
            ),
    ;
}

impl GpuResources for StandardGpuResources {
    open spec fn handle(&self) -> usize {
        StandardGpuResources::handle(self)
    }

    open spec fn config(&self) -> GpuConfig {
        StandardGpuResources::config(self)
    }

    fn inner_ptr(&self) -> (r: usize) {
        proof {
            use_type_invariant(self);
        }
        self.inner
    }

    fn no_temp_memory(&mut self, status: i32) -> (r: Result<(), GpuError>) {
        let r = check_config(ConfigStep::NoTempMemory, status);
        proof {
            use_type_invariant(&*self);
        }
        if r.is_ok() {
            self.config = GpuConfig { temp: TempMemory::Disabled, pinned: self.config.pinned };
        }
        r
    }

    fn set_temp_memory(&mut self, size: usize, status: i32) -> (r: Result<(), GpuError>) {
        let r = check_config(ConfigStep::TempMemory, status);
        proof {
            use_type_invariant(&*self);
        }
        if r.is_ok() {
            let temp = if size == 0 {
                TempMemory::Disabled
            } else {
                TempMemory::Fixed(size)
            };
            self.config = GpuConfig { temp, pinned: self.config.pinned };
        }
        r
    }

    fn set_temp_memory_fraction(&mut self, fraction_bits: u32, status: i32) -> (r: Result<
        (),
        GpuError,
    >) {
        let r = check_config(ConfigStep::TempMemoryFraction, status);
        proof {
            use_type_invariant(&*self);
        }
        if r.is_ok() {
            self.config = GpuConfig {
                temp: TempMemory::Fraction(fraction_bits),
                pinned: self.config.pinned,
            };
        }
        r
    }

    fn set_pinned_memory(&mut self, size: usize, status: i32) -> (r: Result<(), GpuError>) {
        let r = check_config(ConfigStep::PinnedMemory, status);
        proof {
            use_type_invariant(&*self);
        }
        if r.is_ok() {
            self.config = GpuConfig { temp: self.config.temp, pinned: Some(size) };
        }
        r
    }
}

} // verus!

verus! {

/// A pool borrowed mutably serves wherever a pool is wanted: every step goes
/// through to the pool itself, whose handle and configuration it shares.
impl<'g> GpuResources for &'g mut StandardGpuResources {
    open spec fn handle(&self) -> usize {
        (**self).handle()
    }

    open spec fn config(&self) -> GpuConfig {
        (**self).config()
    }

    fn inner_ptr(&self) -> (r: usize) {
        (**self).inner_ptr()
    }

    fn no_temp_memory(&mut self, status: i32) -> (r: Result<(), GpuError>) {
        (**self).no_temp_memory(status)
    }

    fn set_temp_memory(&mut self, size: usize, status: i32) -> (r: Result<(), GpuError>) {
        (**self).set_temp_memory(size, status)
    }

    fn set_temp_memory_fraction(&mut self, fraction_bits: u32, status: i32) -> (r: Result<
        (),
        GpuError,
    >) {
        (**self).set_temp_memory_fraction(fraction_bits, status)
    }

    fn set_pinned_memory(&mut self, size: usize, status: i32) -> (r: Result<(), GpuError>) {
        (**self).set_pinned_memory(size, status)
    }
}

} // verus!

verus! {

/// Asking for a zero-byte scratch arena has the same effect on a pool's
/// configuration as disabling scratch memory.
pub proof fn zero_arena_is_no_arena(c: GpuConfig)
    ensures
        with_temp(c, temp_of_size(0)) == with_temp(c, TempMemory::Disabled),
{
}

/// A mutable borrow of a pool reports the pool's own handle and
/// configuration, whatever has been done through it.
pub proof fn borrow_is_the_pool(b: &mut StandardGpuResources)
    ensures
        <&mut StandardGpuResources as GpuResources>::handle(&old(b))
            == <StandardGpuResources as GpuResources>::handle(&*old(b)),
        <&mut StandardGpuResources as GpuResources>::config(&old(b))
            == <StandardGpuResources as GpuResources>::config(&*old(b)),
{
}

} // verus!
