//! Handlers a driver registers for the exits it wants to answer itself:
//! breakpoints on hooked functions, the processor feature CPUID leaf, the
//! host save area and time-stamp counter MSRs, and RDTSC.
pub mod bp;
pub mod cpuid;
pub mod msr;
pub mod rdtsc;
