use vstd::prelude::*;

verus! {

/// Size of the video RAM window in bytes.
pub const VRAM_SIZE: usize = 8192;

/// Builds a zero-filled byte store of the given length.
pub(crate) fn zeroed(len: usize) -> (r: Vec<u8>)
    ensures
        r@ == Seq::new(len as nat, |i: int| 0u8),
{
    let mut v: Vec<u8> = Vec::new();
    while v.len() < len
        invariant
            v@.len() <= len,
            forall|i: int| 0 <= i < v@.len() ==> v@[i] == 0,
        decreases len - v@.len(),
    {
        v.push(0);
    }
    proof {
        assert(v@ =~= Seq::new(len as nat, |i: int| 0u8));
    }
    v
}

/// The video unit, reduced to its memory store: a byte store for tile and
/// display data, addressed relative to the start of the video RAM window.
pub struct Gpu {
    pub video_ram: Vec<u8>,
}

impl View for Gpu {
    type V = Seq<u8>;

    open spec fn view(&self) -> Seq<u8> {
        self.video_ram@
    }
}

impl Gpu {
    /// The video RAM store always spans the whole window.
    pub open spec fn wf(self) -> bool {
        self@.len() == VRAM_SIZE
    }

    pub fn new() -> (r: Gpu)
        ensures
            r.wf(),
            r@ == Seq::new(VRAM_SIZE as nat, |i: int| 0u8),
    {
        Gpu { video_ram: zeroed(VRAM_SIZE) }
    }

    pub fn read_byte(&self, address: u16) -> (r: u8)
        requires
            self.wf(),
            address < VRAM_SIZE,
        ensures
            r == self@[address as int],
    {
        self.video_ram[address as usize]
    }

    pub fn write_byte(&mut self, address: u16, value: u8)
        requires
            old(self).wf(),
            address < VRAM_SIZE,
        ensures
            final(self).wf(),
            final(self)@ == old(self)@.update(address as int, value),
    {
        self.video_ram.set(address as usize, value);
    }
}

} // verus!
