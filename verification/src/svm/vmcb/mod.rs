//! The virtual machine control block. See `Appendix B - Layout of VMCB` in
//! AMD64 Architecture Programmer's Manual Volume 2: System Programming.
use vstd::prelude::*;

pub mod control_area;
pub mod save_area;

use control_area::ControlArea;
use save_area::SaveArea;

verus! {

/// The VMCB: the control area and the state-save area of a guest.
pub struct Vmcb {
    pub control_area: ControlArea,
    pub save_area: SaveArea,
}

impl Vmcb {
    /// All fields zero, as in freshly zeroed memory.
    pub fn zeroed() -> (r: Self)
        ensures
            r.control_area.is_zeroed(),
            r.save_area.is_zeroed(),
    {
        Vmcb { control_area: ControlArea::zeroed(), save_area: SaveArea::zeroed() }
    }
}

} // verus!
