use vstd::prelude::*;
use crate::mmu::MMU;

verus! {

/// What a DMA step does to the bus, from `m` to `m2`: with a transfer armed, OAM gets
/// the 160 bytes of the source page as they were, and the transfer is disarmed.
pub open spec fn dma_post(m: MMU, m2: MMU) -> bool {
    &&& !m.oam.dma_transfer_requested ==> m2 == m
    &&& m.oam.dma_transfer_requested ==> {
        &&& m2 == (MMU { oam: m2.oam, ..m })
        &&& !m2.oam.dma_transfer_requested
        &&& m2.oam.dma_page() == m.oam.dma_page()
        &&& m.oam.dma_page() != 0xFE ==> forall|i: int|
            0 <= i < 160 ==> #[trigger] m2.oam.view()[i] == m.read_spec((m.oam.dma_page() as int * 256 + i) as u16)
        &&& m.oam.dma_page() == 0xFE ==> m2.oam.view() == m.oam.view()
    }
}

/// Runs the OAM DMA transfer armed by a write to 0xFF46.
pub struct OamDmaManager {}

impl OamDmaManager {
    pub fn new() -> (r: OamDmaManager) {
        OamDmaManager {}
    }

    /// If a transfer is armed, copies the 160 bytes at page << 8 into OAM at once and
    /// disarms it: OAM then holds those bytes as they were before the copy (for page
    /// 0xFE, OAM's own, that leaves OAM as it was).
    pub fn tick(&mut self, mmu: &mut MMU)
        requires
            old(mmu).wf(),
        ensures
            final(mmu).wf(),
            dma_post(*old(mmu), *final(mmu)),
    {
        if !mmu.oam.dma_transfer_requested {
            return;
        }
        let page = mmu.oam.ff46_dma();
        let src: u16 = page as u16 * 256;
        let mut i: u16 = 0;
        while i < 160
            invariant
                i <= 160,
                mmu.wf(),
                src == old(mmu).oam.dma_page() as int * 256,
                *mmu == (MMU { oam: mmu.oam, ..*old(mmu) }),
                mmu.oam.dma_page() == old(mmu).oam.dma_page(),
                mmu.oam.dma_transfer_requested,
                old(mmu).oam.dma_page() != 0xFE ==> forall|j: int|
                    0 <= j < i ==> #[trigger] mmu.oam.view()[j] == old(mmu).read_spec((src + j) as u16),
                old(mmu).oam.dma_page() == 0xFE ==> mmu.oam.view() == old(mmu).oam.view(),
            decreases 160 - i,
        {
            let byte = mmu.read(src + i);
            proof {
                if old(mmu).oam.dma_page() != 0xFE {
                    let a = (src + i) as u16;
                    assert(!(0xFE00 <= a <= 0xFE9F));
                    assert(mmu.read_spec(a) == old(mmu).read_spec(a));
                }
            }
            mmu.write(0xFE00 + i, byte);
            proof {
                if old(mmu).oam.dma_page() == 0xFE {
                    assert(mmu.oam.view() =~= old(mmu).oam.view());
                }
            }
            i = i + 1;
        }
        mmu.oam.dma_transfer_requested = false;
    }
}

} // verus!
