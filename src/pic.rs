use vstd::prelude::*;

verus! {

/// Where read-only data really lies, for code that may run at another
/// address than the one it was linked at. On a platform that always
/// addresses its data where it was linked this is the identity: a seam where
/// a relocating platform plugs in `translate`.
pub trait Pic: Sized {
    fn pic(self) -> (r: Self)
        ensures
            r == self,
    ;
}

impl<'a, T> Pic for &'a T {
    fn pic(self) -> (r: &'a T) {
        self
    }
}

impl<'a> Pic for &'a str {
    fn pic(self) -> (r: &'a str) {
        self
    }
}

impl<'a, T> Pic for &'a [T] {
    fn pic(self) -> (r: &'a [T]) {
        self
    }
}

/// The address at which data linked at `addr` lies at run time. Addresses
/// inside the relocated region `[region_start, region_end)` move back by
/// `runtime_offset`, the distance between where the code runs and where it
/// was linked, modulo 2^32; all others stay.
pub fn translate(addr: u32, region_start: u32, region_end: u32, runtime_offset: u32) -> (r: u32)
    ensures
        region_start <= addr < region_end ==> r as int == (addr as int - runtime_offset as int
            + 0x1_0000_0000) % 0x1_0000_0000,
        !(region_start <= addr < region_end) ==> r == addr,
{
    if addr >= region_start && addr < region_end {
        if addr >= runtime_offset {
            addr - runtime_offset
        } else {
            (addr as u64 + 0x1_0000_0000u64 - runtime_offset as u64) as u32
        }
    } else {
        addr
    }
}

} // verus!
