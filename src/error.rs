use vstd::prelude::*;

verus! {

/// The status code with which the native engine reports success.
pub const NATIVE_OK: i32 = 0;

/// One of the four configuration entry points of a resource pool.
#[derive(Debug, Clone, Copy, PartialEq, Eq, Structural)]
pub enum ConfigStep {
    NoTempMemory,
    TempMemory,
    TempMemoryFraction,
    PinnedMemory,
}

/// What went wrong in a call into the native engine.
#[derive(Debug, Clone, Copy, PartialEq, Eq, Structural)]
pub enum GpuError {
    /// The allocation entry point failed: no pool was produced.
    NativeAllocation { code: i32 },
    /// A configuration entry point failed: the pool keeps its prior
    /// configuration.
    AllocationConfig { step: ConfigStep, code: i32 },
}

/// Turns the status of a configuration call into a result that names the
/// step when the engine reported failure.
pub fn check_config(step: ConfigStep, code: i32) -> (r: Result<(), GpuError>)
    ensures
        code == NATIVE_OK ==> r is Ok,
        code != NATIVE_OK ==> r == Err::<(), GpuError>(GpuError::AllocationConfig { step, code }),
{
    if code == NATIVE_OK {
        Ok(())
    } else {
        Err(GpuError::AllocationConfig { step, code })
    }
}

} // verus!
