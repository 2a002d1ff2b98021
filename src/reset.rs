//! The reset path: zero the `.bss` region, copy the `.data` image from flash,
//! then hand control to the application with a sentinel return address.

use vstd::prelude::*;
use crate::memory::{cleared, copied, r_memclr, r_memcpy, Memory};

verus! {

/// The region boundaries that the link step places before reset.
#[derive(Clone, Copy, Debug, PartialEq, Eq)]
pub struct RegionLayout {
    /// First byte of the zero-initialised region.
    pub sbss: u32,
    /// First byte past the zero-initialised region.
    pub ebss: u32,
    /// First byte of the initialised-data region in working memory.
    pub sdata: u32,
    /// First byte past the initialised-data region in working memory.
    pub edata: u32,
    /// First byte of the initialised-data image in non-volatile memory.
    pub sidata: u32,
}

/// Register state with which the reset path enters the application.
#[derive(Clone, Copy, Debug, PartialEq, Eq)]
pub struct Handoff {
    /// Static base register (`r9`): start of the initialised-data region.
    pub static_base: u32,
    /// Link register: zero, so that a return from the application faults.
    pub link_register: u32,
}

impl RegionLayout {
    /// Both regions are well ordered, lie in `ram`, and the image lies in
    /// `flash` with the data region's length.
    pub open spec fn valid(&self, ram: &Memory, flash: &Memory) -> bool {
        &&& self.sbss <= self.ebss
        &&& self.sdata <= self.edata
        &&& ram.holds(self.sbss as int, self.ebss - self.sbss)
        &&& ram.holds(self.sdata as int, self.edata - self.sdata)
        &&& flash.holds(self.sidata as int, self.edata - self.sdata)
    }

    /// `addr` lies in the zero-initialised region.
    pub open spec fn in_bss(&self, addr: int) -> bool {
        self.sbss <= addr < self.ebss
    }

    /// `addr` lies in the initialised-data region.
    pub open spec fn in_data(&self, addr: int) -> bool {
        self.sdata <= addr < self.edata
    }

    /// The two regions share no byte.
    pub open spec fn disjoint(&self) -> bool {
        self.ebss <= self.sdata || self.edata <= self.sbss
    }
}

/// The working memory after initialisation: the zero region cleared, then the
/// data image copied over the data region.
pub open spec fn initialised(ram: &Memory, flash: &Memory, l: RegionLayout) -> Seq<u8> {
    copied(
        cleared(ram.bytes@, l.sbss - ram.base, l.ebss - l.sbss),
        l.sdata - ram.base,
        flash.bytes@,
        l.sidata - flash.base,
        l.edata - l.sdata,
    )
}

/// Initialises static memory in order (clear the zero region, then copy the
/// data image) and returns the register state for entering the application.
pub fn reset(ram: &mut Memory, flash: &Memory, layout: RegionLayout) -> (r: Handoff)
    requires
        old(ram).wf(),
        flash.wf(),
        layout.valid(old(ram), flash),
    ensures
        final(ram).wf(),
        final(ram).base == old(ram).base,
        final(ram).bytes@ == initialised(old(ram), flash, layout),
        r.static_base == layout.sdata,
        r.link_register == 0,
{
    let static_base = layout.sdata;
    r_memclr(ram, layout.sbss, layout.ebss - layout.sbss);
    r_memcpy(ram, layout.sdata, flash, layout.sidata, layout.edata - layout.sdata);
    Handoff { static_base, link_register: 0 }
}

/// After initialisation every byte of the zero region reads zero and every
/// byte of the data region equals the corresponding byte of the image, for
/// regions of any length, empty ones included; every other byte is unchanged.
pub proof fn lemma_reset_initialises(ram: &Memory, flash: &Memory, l: RegionLayout)
    requires
        ram.wf(),
        flash.wf(),
        l.valid(ram, flash),
        l.disjoint(),
    ensures
        forall|a: int| #[trigger]
            l.in_bss(a) ==> initialised(ram, flash, l)[a - ram.base] == 0,
        forall|a: int| #[trigger]
            l.in_data(a) ==> initialised(ram, flash, l)[a - ram.base] == flash.at(
                l.sidata + (a - l.sdata),
            ),
        forall|a: int|
            ram.holds(a, 1) && !l.in_bss(a) && !l.in_data(a) ==> #[trigger] initialised(
                ram,
                flash,
                l,
            )[a - ram.base] == ram.at(a),
{
}

} // verus!
