// OAM DMA: copying a 256-byte page of CPU RAM into sprite memory while the CPU waits.
use vstd::prelude::*;
use crate::memory::{CpuMemMap, CpuMemMapView, Ram};
use crate::ppu::memory::PpuMemMapView;
use crate::ppu::{spec_oam_from_bytes, PpuView};

verus! {

#[derive(Debug, Clone, Copy, PartialEq, Eq, Structural)]
pub enum DmaType {
    OAM,
    DMC,
}

/// A transfer takes 514 cycles, two per step.
pub const DMA_CYCLES: usize = 514;

#[derive(Clone, Copy)]
pub struct Dma {
    pub page_index: u8,
    pub dma_cycle_count: usize,
    pub dma_type: Option<DmaType>,
}

/// Page `page` of CPU RAM (mirrored every 2 KB), as DMA reads it.
pub open spec fn ram_page(ram: Seq<u8>, page: u8) -> Seq<u8> {
    Seq::new(256, |i: int| ram[(page * 256 + i) % 2048])
}

impl Dma {
    /// A running transfer counts up to its end in steps of two.
    pub open spec fn wf(self) -> bool {
        self.dma_type is Some ==> self.dma_cycle_count < DMA_CYCLES && self.dma_cycle_count % 2 == 0
    }

    pub open spec fn is_active(self) -> bool {
        self.dma_type is Some
    }

    /// One DMA step on the memory map: the page is copied into OAM at the first step; after
    /// 514 cycles the transfer ends.
    pub open spec fn spec_step(self, m: CpuMemMapView) -> (Dma, CpuMemMapView) {
        if self.dma_type is None {
            (self, m)
        } else {
            let m1 = if self.dma_cycle_count == 0 {
                CpuMemMapView {
                    ppu: PpuView {
                        mem: PpuMemMapView { oam: spec_oam_from_bytes(ram_page(m.ram, self.page_index)), ..m.ppu.mem },
                        ..m.ppu
                    },
                    ..m
                }
            } else {
                m
            };
            let count = (self.dma_cycle_count + 2) as usize;
            (
                Dma { dma_cycle_count: count, dma_type: if count == DMA_CYCLES { None } else { self.dma_type }, ..self },
                m1,
            )
        }
    }

    pub fn new() -> (r: Dma)
        ensures
            r.wf(),
            !r.is_active(),
            r.page_index == 0,
            r.dma_cycle_count == 0,
    {
        Dma { page_index: 0, dma_cycle_count: 0, dma_type: None }
    }

    pub fn start_dma(&mut self, dma_type: DmaType, page_index: u8)
        ensures
            *final(self) == (Dma { dma_type: Some(dma_type), page_index, dma_cycle_count: 0 }),
            final(self).wf(),
    {
        self.dma_type = Some(dma_type);
        self.page_index = page_index;
        self.dma_cycle_count = 0;
    }

    pub fn step(&mut self, mem_map: &mut CpuMemMap)
        requires
            old(self).wf(),
        ensures
            (*final(self), final(mem_map)@) == old(self).spec_step(old(mem_map)@),
            final(self).wf(),
    {
        if self.dma_type.is_none() {
            return;
        }
        if self.dma_cycle_count == 0 {
            let page = read_ram_page(&mem_map.ram, self.page_index);
            mem_map.ppu.ppu_mem_map.oam_table.write(page.as_slice());
        }
        self.dma_cycle_count += 2;
        if self.dma_cycle_count == DMA_CYCLES {
            self.dma_type = None;
        }
    }

    pub fn is_wf(&self) -> (r: bool)
        ensures
            r == self.wf(),
    {
        match self.dma_type {
            Some(_) => self.dma_cycle_count < DMA_CYCLES && self.dma_cycle_count % 2 == 0,
            None => true,
        }
    }

    #[inline]
    pub fn is_dma_active(&self) -> (r: bool)
        ensures
            r == self.is_active(),
    {
        self.dma_type.is_some()
    }
}

/// The 256 bytes of a RAM page.
fn read_ram_page(ram: &Ram, page: u8) -> (r: Vec<u8>)
    ensures
        r@ == ram_page(ram@, page),
{
    let mut out: Vec<u8> = Vec::new();
    let mut i: usize = 0;
    let base = page as usize * 256;
    while i < 256
        invariant
            i <= 256,
            base == page * 256,
            out@ == ram_page(ram@, page).take(i as int),
        decreases 256 - i,
    {
        out.push(ram.ram[(base + i) % 2048]);
        proof {
            assert(ram_page(ram@, page).take(i + 1) =~= ram_page(ram@, page).take(i as int).push(ram@[((base + i) % 2048) as int]));
        }
        i += 1;
    }
    proof {
        assert(ram_page(ram@, page).take(256) =~= ram_page(ram@, page));
    }
    out
}

impl Dma {
    /// `n` DMA steps.
    pub open spec fn spec_run(self, m: CpuMemMapView, n: nat) -> (Dma, CpuMemMapView)
        decreases n,
    {
        if n == 0 {
            (self, m)
        } else {
            let (d, m1) = self.spec_run(m, (n - 1) as nat);
            d.spec_step(m1)
        }
    }
}

proof fn lemma_dma_progress(page: u8, m: CpuMemMapView, k: nat)
    requires
        1 <= k <= 256,
    ensures
        ({
            let d0 = Dma { dma_type: Some(DmaType::OAM), page_index: page, dma_cycle_count: 0 };
            let (d, m2) = d0.spec_run(m, k);
            &&& d.dma_type == Some(DmaType::OAM)
            &&& d.dma_cycle_count == 2 * k
            &&& d.page_index == page
            &&& m2.ram == m.ram
            &&& m2.ppu.mem.oam == spec_oam_from_bytes(ram_page(m.ram, page))
        }),
    decreases k,
{
    let d0 = Dma { dma_type: Some(DmaType::OAM), page_index: page, dma_cycle_count: 0 };
    let (d1, m1) = d0.spec_run(m, (k - 1) as nat);
    assert(d0.spec_run(m, k) == d1.spec_step(m1));
    if k > 1 {
        lemma_dma_progress(page, m, (k - 1) as nat);
    } else {
        assert(d0.spec_run(m, 0) == (d0, m));
    }
}

proof fn lemma_dma_count(t: DmaType, page: u8, m: CpuMemMapView, k: nat)
    requires
        k <= 256,
    ensures
        ({
            let d0 = Dma { dma_type: Some(t), page_index: page, dma_cycle_count: 0 };
            let (d, _) = d0.spec_run(m, k);
            &&& d.dma_type == Some(t)
            &&& d.dma_cycle_count == 2 * k
        }),
    decreases k,
{
    if k > 0 {
        lemma_dma_count(t, page, m, (k - 1) as nat);
    }
}

proof fn lemma_dma_ended(t: DmaType, page: u8, m: CpuMemMapView, n: nat)
    requires
        n >= 257,
    ensures
        ({
            let d0 = Dma { dma_type: Some(t), page_index: page, dma_cycle_count: 0 };
            d0.spec_run(m, n).0.dma_type is None
        }),
    decreases n,
{
    if n == 257 {
        lemma_dma_count(t, page, m, 256);
    } else {
        lemma_dma_ended(t, page, m, (n - 1) as nat);
    }
}

/// A transfer of either type, once started, is running for exactly its first 256 steps and
/// has ended after the 257th (514 cycles, two per step), whatever the step count.
pub proof fn law_dma_active_steps(t: DmaType, page: u8, m: CpuMemMapView, n: nat)
    ensures
        ({
            let d0 = Dma { dma_type: Some(t), page_index: page, dma_cycle_count: 0 };
            d0.spec_run(m, n).0.is_active() == (n < 257)
        }),
{
    if n < 257 {
        lemma_dma_count(t, page, m, n);
    } else {
        lemma_dma_ended(t, page, m, n);
    }
}

/// A DMA transfer started with a write to $4014 ends after 257 steps (514 cycles), with the
/// RAM page in OAM.
pub proof fn law_dma_transfer(page: u8, m: CpuMemMapView)
    ensures
        ({
            let d0 = Dma { dma_type: Some(DmaType::OAM), page_index: page, dma_cycle_count: 0 };
            let (d, m2) = d0.spec_run(m, 257);
            &&& d.dma_type is None
            &&& m2.ppu.mem.oam == spec_oam_from_bytes(ram_page(m.ram, page))
        }),
{
    let d0 = Dma { dma_type: Some(DmaType::OAM), page_index: page, dma_cycle_count: 0 };
    lemma_dma_progress(page, m, 256);
    let (d1, m1) = d0.spec_run(m, 256);
    assert(d0.spec_run(m, 257) == d1.spec_step(m1));
}

} // verus!
