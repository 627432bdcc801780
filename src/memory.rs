use vstd::prelude::*;
use vstd::slice::slice_subrange;

verus! {

/// A physical backing memory of the GBA.
#[derive(Clone, Copy, Debug, PartialEq, Eq, Structural)]
pub enum Region {
    Bios,
    WramSlow,
    WramFast,
    Io,
    Palette,
    Vram,
    Oam,
    Cartridge,
    Sram,
}

/// Size in bytes of each backing buffer.
pub open spec fn region_size(r: Region) -> nat {
    match r {
        Region::Bios => 0x4000,
        Region::WramSlow => 0x40000,
        Region::WramFast => 0x8000,
        Region::Io => 0x3FF,
        Region::Palette => 0x400,
        Region::Vram => 0x18000,
        Region::Oam => 0x400,
        Region::Cartridge => 0x8000,
        Region::Sram => 0x10000,
    }
}

/// The declared guest window that contains `addr`, as the region behind it
/// and the window's first address; `None` outside every window. The
/// cartridge buffer is seen through three windows.
pub open spec fn window_of(addr: int) -> Option<(Region, int)> {
    if 0 <= addr <= 0x00003FFF {
        Some((Region::Bios, 0))
    } else if 0x02000000 <= addr <= 0x0203FFFF {
        Some((Region::WramSlow, 0x02000000))
    } else if 0x03000000 <= addr <= 0x03007FFF {
        Some((Region::WramFast, 0x03000000))
    } else if 0x04000000 <= addr <= 0x040003FE {
        Some((Region::Io, 0x04000000))
    } else if 0x05000000 <= addr <= 0x050003FF {
        Some((Region::Palette, 0x05000000))
    } else if 0x06000000 <= addr <= 0x06017FFF {
        Some((Region::Vram, 0x06000000))
    } else if 0x07000000 <= addr <= 0x070003FF {
        Some((Region::Oam, 0x07000000))
    } else if 0x08000000 <= addr <= 0x09FFFFFF {
        Some((Region::Cartridge, 0x08000000))
    } else if 0x0A000000 <= addr <= 0x0BFFFFFF {
        Some((Region::Cartridge, 0x0A000000))
    } else if 0x0C000000 <= addr <= 0x0DFFFFFF {
        Some((Region::Cartridge, 0x0C000000))
    } else if 0x0E000000 <= addr <= 0x0E00FFFF {
        Some((Region::Sram, 0x0E000000))
    } else {
        None
    }
}

/// Translation of an access of `size` bytes at guest address `addr`: the
/// region and the local offset of its first byte, when the address lies in a
/// window, its offset is backed by the region's buffer, and the whole span
/// `[offset, offset + size)` fits in that buffer; `None` otherwise.
pub open spec fn translate_spec(addr: int, size: int) -> Option<(Region, int)> {
    match window_of(addr) {
        Some((r, base)) => {
            let off = addr - base;
            if off < region_size(r) && off + size <= region_size(r) {
                Some((r, off))
            } else {
                None
            }
        },
        None => None,
    }
}

impl Region {
    /// Size in bytes of the region's buffer.
    pub fn size(self) -> (r: usize)
        ensures
            r == region_size(self),
    {
        match self {
            Region::Bios => 0x4000,
            Region::WramSlow => 0x40000,
            Region::WramFast => 0x8000,
            Region::Io => 0x3FF,
            Region::Palette => 0x400,
            Region::Vram => 0x18000,
            Region::Oam => 0x400,
            Region::Cartridge => 0x8000,
            Region::Sram => 0x10000,
        }
    }
}

/// Finds the guest window that holds `address`.
pub fn window_for(address: usize) -> (r: Option<(Region, usize)>)
    ensures
        match window_of(address as int) {
            Some((reg, base)) => r == Some((reg, base as usize)),
            None => r is None,
        },
{
    if address <= 0x00003FFF {
        Some((Region::Bios, 0))
    } else if 0x02000000 <= address && address <= 0x0203FFFF {
        Some((Region::WramSlow, 0x02000000))
    } else if 0x03000000 <= address && address <= 0x03007FFF {
        Some((Region::WramFast, 0x03000000))
    } else if 0x04000000 <= address && address <= 0x040003FE {
        Some((Region::Io, 0x04000000))
    } else if 0x05000000 <= address && address <= 0x050003FF {
        Some((Region::Palette, 0x05000000))
    } else if 0x06000000 <= address && address <= 0x06017FFF {
        Some((Region::Vram, 0x06000000))
    } else if 0x07000000 <= address && address <= 0x070003FF {
        Some((Region::Oam, 0x07000000))
    } else if 0x08000000 <= address && address <= 0x09FFFFFF {
        Some((Region::Cartridge, 0x08000000))
    } else if 0x0A000000 <= address && address <= 0x0BFFFFFF {
        Some((Region::Cartridge, 0x0A000000))
    } else if 0x0C000000 <= address && address <= 0x0DFFFFFF {
        Some((Region::Cartridge, 0x0C000000))
    } else if 0x0E000000 <= address && address <= 0x0E00FFFF {
        Some((Region::Sram, 0x0E000000))
    } else {
        None
    }
}

/// `s` with `b` laid over it from offset `off`; the length is kept.
pub open spec fn splice(s: Seq<u8>, off: int, b: Seq<u8>) -> Seq<u8> {
    Seq::new(s.len(), |i: int| if off <= i < off + b.len() { b[i - off] } else { s[i] })
}

/// Every region's buffer is present and has its region's size.
pub open spec fn image_wf(img: Map<Region, Seq<u8>>) -> bool {
    forall|r: Region| #[trigger] img.contains_key(r) && img[r].len() == region_size(r)
}

/// What a read of `n` bytes at `addr` returns from the memory image `img`.
pub open spec fn read_image(img: Map<Region, Seq<u8>>, addr: int, n: int) -> Option<Seq<u8>> {
    match translate_spec(addr, n) {
        Some((r, off)) => Some(img[r].subrange(off, off + n)),
        None => None,
    }
}

/// The memory image after writing `bytes` at `addr`, or `None` when the
/// access does not translate (and nothing is written).
pub open spec fn write_image(img: Map<Region, Seq<u8>>, addr: int, bytes: Seq<u8>) -> Option<
    Map<Region, Seq<u8>>,
> {
    match translate_spec(addr, bytes.len() as int) {
        Some((r, off)) => Some(img.insert(r, splice(img[r], off, bytes))),
        None => None,
    }
}

/// Copies `bytes` into `buf` from offset `off`.
fn copy_into(buf: &mut Vec<u8>, off: usize, bytes: &[u8])
    requires
        off + bytes@.len() <= old(buf)@.len(),
    ensures
        final(buf)@ == splice(old(buf)@, off as int, bytes@),
{
    let n = bytes.len();
    let mut i: usize = 0;
    while i < n
        invariant
            n == bytes@.len(),
            i <= n,
            off + n <= buf.len(),
            buf@ == splice(old(buf)@, off as int, bytes@.subrange(0, i as int)),
        decreases n - i,
    {
        buf[off + i] = bytes[i];
        i = i + 1;
        assert(buf@ =~= splice(old(buf)@, off as int, bytes@.subrange(0, i as int)));
    }
    assert(bytes@.subrange(0, n as int) =~= bytes@);
}

/// The GBA's address space: one zero-initialised buffer per physical region.
pub struct GBAMmio {
    bios: Vec<u8>,
    wram_slow: Vec<u8>,
    wram_fast: Vec<u8>,
    io: Vec<u8>,
    palette: Vec<u8>,
    vram: Vec<u8>,
    oam: Vec<u8>,
    extern_mem: Vec<u8>,
    extern_sram: Vec<u8>,
}

impl GBAMmio {
    /// Translates an access of `size` bytes at guest `address` to the region and
    /// the half-open local range `[start, end)` in its buffer.
    pub fn translate_address(address: usize, size: usize) -> (r: Option<(Region, usize, usize)>)
        ensures
            match translate_spec(address as int, size as int) {
                Some((reg, off)) => r == Some((reg, off as usize, (off + size) as usize)),
                None => r is None,
            },
    {
        match window_for(address) {
            Some((reg, base)) => {
                let off = address - base;
                let len = reg.size();
                if off < len && size <= len - off {
                    Some((reg, off, off + size))
                } else {
                    None
                }
            },
            None => None,
        }
    }

    /// The contents of one region's buffer.
    pub closed spec fn region_bytes(&self, r: Region) -> Seq<u8> {
        match r {
            Region::Bios => self.bios@,
            Region::WramSlow => self.wram_slow@,
            Region::WramFast => self.wram_fast@,
            Region::Io => self.io@,
            Region::Palette => self.palette@,
            Region::Vram => self.vram@,
            Region::Oam => self.oam@,
            Region::Cartridge => self.extern_mem@,
            Region::Sram => self.extern_sram@,
        }
    }

    /// Every buffer has its region's size.
    pub open spec fn wf(&self) -> bool {
        image_wf(self@)
    }

    /// The buffer behind a region.
    fn buffer(&self, r: Region) -> (b: &Vec<u8>)
        ensures
            b@ == self.region_bytes(r),
    {
        match r {
            Region::Bios => &self.bios,
            Region::WramSlow => &self.wram_slow,
            Region::WramFast => &self.wram_fast,
            Region::Io => &self.io,
            Region::Palette => &self.palette,
            Region::Vram => &self.vram,
            Region::Oam => &self.oam,
            Region::Cartridge => &self.extern_mem,
            Region::Sram => &self.extern_sram,
        }
    }

    /// A fresh address space with every buffer zeroed.
    pub fn new() -> (r: Self)
        ensures
            r.wf(),
            forall|reg: Region, i: int| 0 <= i < region_size(reg) ==> #[trigger] r@[reg][i] == 0,
    {
        let r = GBAMmio {
            bios: vec![0u8; Region::Bios.size()],
            wram_slow: vec![0u8; Region::WramSlow.size()],
            wram_fast: vec![0u8; Region::WramFast.size()],
            io: vec![0u8; Region::Io.size()],
            palette: vec![0u8; Region::Palette.size()],
            vram: vec![0u8; Region::Vram.size()],
            oam: vec![0u8; Region::Oam.size()],
            extern_mem: vec![0u8; Region::Cartridge.size()],
            extern_sram: vec![0u8; Region::Sram.size()],
        };
        assert forall|reg: Region| #[trigger] r@.contains_key(reg) && r@[reg].len() == region_size(reg) by {}
        r
    }

    /// Reads `n_bytes` at guest `address`: the bytes of the translated span,
    /// or `None` when the access does not translate. Never partial.
    pub fn read(&self, address: usize, n_bytes: usize) -> (r: Option<&[u8]>)
        requires
            self.wf(),
        ensures
            match read_image(self@, address as int, n_bytes as int) {
                Some(b) => r is Some && r.unwrap()@ == b,
                None => r is None,
            },
    {
        match Self::translate_address(address, n_bytes) {
            Some((reg, start, end)) => {
                let buf = self.buffer(reg);
                assert(self@.contains_key(reg) && self@[reg] == self.region_bytes(reg));
                Some(slice_subrange(buf.as_slice(), start, end))
            },
            None => None,
        }
    }

    /// Writes `bytes` at guest `address` and returns `true`, or returns
    /// `false` and changes nothing when the access does not translate.
    pub fn write(&mut self, address: usize, bytes: &[u8]) -> (r: bool)
        requires
            old(self).wf(),
        ensures
            final(self).wf(),
            r == write_image(old(self)@, address as int, bytes@) is Some,
            final(self)@ == match write_image(old(self)@, address as int, bytes@) {
                Some(img) => img,
                None => old(self)@,
            },
    {
        match Self::translate_address(address, bytes.len()) {
            Some((reg, start, _end)) => {
                assert(self@.contains_key(reg) && self@[reg] == self.region_bytes(reg));
                match reg {
                    Region::Bios => copy_into(&mut self.bios, start, bytes),
                    Region::WramSlow => copy_into(&mut self.wram_slow, start, bytes),
                    Region::WramFast => copy_into(&mut self.wram_fast, start, bytes),
                    Region::Io => copy_into(&mut self.io, start, bytes),
                    Region::Palette => copy_into(&mut self.palette, start, bytes),
                    Region::Vram => copy_into(&mut self.vram, start, bytes),
                    Region::Oam => copy_into(&mut self.oam, start, bytes),
                    Region::Cartridge => copy_into(&mut self.extern_mem, start, bytes),
                    Region::Sram => copy_into(&mut self.extern_sram, start, bytes),
                }
                assert(self@ =~= old(self)@.insert(reg, splice(old(self)@[reg], start as int, bytes@)));
                assert forall|q: Region| #[trigger] self@.contains_key(q) && self@[q].len() == region_size(q) by {
                    assert(old(self)@.contains_key(q));
                }
                true
            },
            None => false,
        }
    }
}

impl View for GBAMmio {
    type V = Map<Region, Seq<u8>>;

    closed spec fn view(&self) -> Map<Region, Seq<u8>> {
        Map::total(|r: Region| self.region_bytes(r))
    }
}

/// The first address of a cartridge window.
pub open spec fn is_cartridge_base(base: int) -> bool {
    base == 0x08000000 || base == 0x0A000000 || base == 0x0C000000
}

/// Region containment: at the first address `base` of a window of region
/// `r`, an access of the region's full size translates to the whole buffer;
/// an access starting one byte past the buffer's last address fails whatever
/// its size; and an access that starts inside but runs one byte past the end
/// fails.
pub proof fn lemma_region_containment(r: Region, base: int, k: int, size: nat)
    requires
        window_of(base) == Some((r, base)),
        0 <= k < region_size(r),
    ensures
        translate_spec(base, region_size(r) as int) == Some((r, 0int)),
        translate_spec(base + region_size(r), size as int) is None,
        translate_spec(base + k, region_size(r) - k + 1) is None,
{
}

/// A write that succeeds keeps the image well formed, and reading back the
/// same address and length returns exactly the bytes written.
pub proof fn lemma_write_read_round_trip(img: Map<Region, Seq<u8>>, addr: int, bytes: Seq<u8>)
    requires
        image_wf(img),
        write_image(img, addr, bytes) is Some,
    ensures
        image_wf(write_image(img, addr, bytes).unwrap()),
        read_image(write_image(img, addr, bytes).unwrap(), addr, bytes.len() as int) == Some(bytes),
{
    let (r, off) = translate_spec(addr, bytes.len() as int).unwrap();
    let after = write_image(img, addr, bytes).unwrap();
    assert(img.contains_key(r));
    assert forall|q: Region| #[trigger] after.contains_key(q) && after[q].len() == region_size(q) by {
        assert(img.contains_key(q));
    }
    assert(after[r].subrange(off, off + bytes.len()) =~= bytes);
}

/// The three cartridge windows alias one buffer: bytes written at a local
/// offset through one window are read back at the same offset through any
/// other.
pub proof fn lemma_cartridge_windows_alias(
    img: Map<Region, Seq<u8>>,
    w1: int,
    w2: int,
    off: int,
    bytes: Seq<u8>,
)
    requires
        image_wf(img),
        is_cartridge_base(w1),
        is_cartridge_base(w2),
        0 <= off < region_size(Region::Cartridge),
        write_image(img, w1 + off, bytes) is Some,
    ensures
        read_image(write_image(img, w1 + off, bytes).unwrap(), w2 + off, bytes.len() as int)
            == Some(bytes),
{
    lemma_write_read_round_trip(img, w1 + off, bytes);
    assert(window_of(w1 + off) == Some((Region::Cartridge, w1)));
    assert(window_of(w2 + off) == Some((Region::Cartridge, w2)));
    assert(translate_spec(w2 + off, bytes.len() as int) == translate_spec(w1 + off, bytes.len() as int));
}

} // verus!
