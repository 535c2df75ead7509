//! The processors the hypervisor virtualizes.
use vstd::prelude::*;

use crate::svm::data::processor::ProcessorData;
use crate::svm::data::shared_data::SharedData;
use crate::svm::msr_bitmap::EFER_SVME;
use crate::svm::vmexit::cpuid::{native_cpuid, CPUID_DEVIRTUALIZE};

verus! {

/// What `x86::cpuid::CpuId::get_hypervisor_info` and its `identify` tell
/// of the hypervisor below: a known one, or the vendor registers of an
/// unknown one.
#[derive(Debug, Clone, Copy, PartialEq, Eq, Structural)]
pub enum HypervisorIdentity {
    Known,
    Unknown(u32, u32, u32),
}

/// Calls `x86::cpuid::CpuId::new().get_hypervisor_info()` and, when there is
/// a hypervisor, `identify()` on its information; a known vendor becomes
/// `Known`, an unknown one its EBX, ECX and EDX. What comes back depends on
/// the processor and the hypervisor below, so nothing is stated about it.
#[verifier::external_body]
fn hypervisor_identity() -> Option<HypervisorIdentity> {
    x86::cpuid::CpuId::new().get_hypervisor_info().map(|info| match info.identify() {
        x86::cpuid::Hypervisor::Unknown(ebx, ecx, edx) => HypervisorIdentity::Unknown(ebx, ecx, edx),
        _ => HypervisorIdentity::Known,
    })
}

/// The hypervisor identity this hypervisor answers with: EBX, ECX and EDX
/// all 0x42.
pub open spec fn is_this_hypervisor(identity: Option<HypervisorIdentity>) -> bool {
    identity == Some(HypervisorIdentity::Unknown(0x42, 0x42, 0x42))
}

/// A processor of the system and the data its virtualization needs.
pub struct Processor {
    pub index: u32,
    pub data: ProcessorData,
}

impl Processor {
    /// The processor with index `index`, with zero-filled data.
    pub fn new(index: u32) -> (r: Self)
        ensures
            r.index == index,
            r.data.host_stack_layout.reserved_1 == 0,
    {
        Processor { index, data: ProcessorData::new() }
    }

    /// Whether the hypervisor identity, `identity`, is this hypervisor's.
    pub fn is_virtualized_by(identity: Option<HypervisorIdentity>) -> (r: bool)
        ensures
            r == is_this_hypervisor(identity),
    {
        match identity {
            Some(HypervisorIdentity::Unknown(ebx, ecx, edx)) => ebx == 0x42 && ecx == 0x42 && edx
                == 0x42,
            _ => false,
        }
    }

    /// Whether the processor runs under this hypervisor, by the identity the
    /// CPUID hypervisor leaf reports (which the CPUID exit answers). The
    /// identity comes from the processor, so nothing is guaranteed of the
    /// answer; `is_virtualized_by` is how the identity is read.
    pub fn is_virtualized(&self) -> (r: bool) {
        let identity = hypervisor_identity();
        Self::is_virtualized_by(identity)
    }

    /// EFER with SVM enabled, from its value `efer`.
    pub fn efer_with_svm(efer: u64) -> (r: u64)
        ensures
            r == efer | EFER_SVME,
    {
        efer | EFER_SVME
    }

    /// Asks the hypervisor to leave this processor: executes CPUID with the
    /// devirtualize leaf, which the CPUID exit answers by leaving. The
    /// processor is left devirtualized either way.
    pub fn devirtualize(&self) -> (r: bool)
        ensures
            r,
    {
        let _result = native_cpuid(CPUID_DEVIRTUALIZE as u32, CPUID_DEVIRTUALIZE as u32);
        true
    }

    /// The index of the processor.
    pub fn id(&self) -> (r: u32)
        ensures
            r == self.index,
    {
        self.index
    }
}

/// The processors of the system and the data they share.
pub struct Processors {
    pub shared_data: SharedData,
    pub processors: Vec<Processor>,
}

impl Processors {
    /// The processors `0..processor_count` with the shared data; none when
    /// the processor does not support SVM (`svm_supported`).
    pub fn new(svm_supported: bool, processor_count: u32, shared_data: SharedData) -> (r: Option<Self>)
        ensures
            match r {
                Some(p) => svm_supported && p.processors@.len() == processor_count && (forall|i: int|
                    0 <= i < processor_count ==> #[trigger] p.processors@[i].index == i),
                None => !svm_supported,
            },
    {
        if !svm_supported {
            return None;
        }
        let mut processors: Vec<Processor> = Vec::new();
        let mut i: u32 = 0;
        while i < processor_count
            invariant
                i <= processor_count,
                processors@.len() == i,
                forall|j: int| 0 <= j < i ==> #[trigger] processors@[j].index == j,
            decreases processor_count - i,
        {
            processors.push(Processor::new(i));
            i = i + 1;
        }
        Some(Processors { shared_data, processors })
    }

    /// Virtualizes the processors in order through `virtualize_one`, which
    /// gets a processor's index; stops with `false` at the first that
    /// fails.
    pub fn virtualize<F: Fn(u32) -> bool>(&self, virtualize_one: F) -> (r: bool)
        requires
            forall|i: u32| call_requires(virtualize_one, (i,)),
        ensures
            r ==> forall|k: int| 0 <= k < self.processors@.len() ==> #[trigger] call_ensures(virtualize_one, (self.processors@[k].index,), true),
            !r ==> exists|k: int| 0 <= k < self.processors@.len() && #[trigger] call_ensures(virtualize_one, (self.processors@[k].index,), false),
    {
        Self::for_each(&self.processors, virtualize_one)
    }

    /// Devirtualizes the processors in order through `devirtualize_one`;
    /// stops with `false` at the first that fails.
    pub fn devirtualize<F: Fn(u32) -> bool>(&self, devirtualize_one: F) -> (r: bool)
        requires
            forall|i: u32| call_requires(devirtualize_one, (i,)),
        ensures
            r ==> forall|k: int| 0 <= k < self.processors@.len() ==> #[trigger] call_ensures(devirtualize_one, (self.processors@[k].index,), true),
            !r ==> exists|k: int| 0 <= k < self.processors@.len() && #[trigger] call_ensures(devirtualize_one, (self.processors@[k].index,), false),
    {
        Self::for_each(&self.processors, devirtualize_one)
    }

    fn for_each<F: Fn(u32) -> bool>(processors: &Vec<Processor>, f: F) -> (r: bool)
        requires
            forall|i: u32| call_requires(f, (i,)),
        ensures
            r ==> forall|k: int| 0 <= k < processors@.len() ==> #[trigger] call_ensures(f, (processors@[k].index,), true),
            !r ==> exists|k: int| 0 <= k < processors@.len() && #[trigger] call_ensures(f, (processors@[k].index,), false),
    {
        let mut k: usize = 0;
        while k < processors.len()
            invariant
                k <= processors@.len(),
                forall|i: u32| call_requires(f, (i,)),
                forall|j: int| 0 <= j < k ==> #[trigger] call_ensures(f, (processors@[j].index,), true),
            decreases processors@.len() - k,
        {
            let ok = f(processors[k].index);
            if !ok {
                return false;
            }
            k = k + 1;
        }
        true
    }
}

} // verus!
