use vstd::prelude::*;

use crate::error::Fault;

verus! {

/// Bytes of addressable memory.
pub const MEMORY_SIZE: usize = 4096;

/// Address at which a program is loaded, and at which execution starts.
pub const ROM_START: usize = 0x200;

/// Address of the first font glyph.
pub const FONT_START: usize = 0x050;

/// One past the address of the last font byte.
pub const FONT_END: usize = 0x0A0;

/// Bytes per font glyph: five rows of eight pixels.
pub const FONT_SPRITE_STRIDE: usize = 5;

/// High byte that ends a program on its own, without a low byte.
pub const EOF_BYTE: u8 = 0x0A;

/// The sixteen hex-digit glyphs, five rows each, for digits 0 to F in order.
pub open spec fn font_sprites() -> Seq<u8> {
    seq![
        0xF0u8, 0x90u8, 0x90u8, 0x90u8, 0xF0u8,  // 0
        0x20u8, 0x60u8, 0x20u8, 0x20u8, 0x70u8,  // 1
        0xF0u8, 0x10u8, 0xF0u8, 0x80u8, 0xF0u8,  // 2
        0xF0u8, 0x10u8, 0xF0u8, 0x10u8, 0xF0u8,  // 3
        0x90u8, 0x90u8, 0xF0u8, 0x10u8, 0x10u8,  // 4
        0xF0u8, 0x80u8, 0xF0u8, 0x10u8, 0xF0u8,  // 5
        0xF0u8, 0x80u8, 0xF0u8, 0x90u8, 0xF0u8,  // 6
        0xF0u8, 0x10u8, 0x20u8, 0x40u8, 0x40u8,  // 7
        0xF0u8, 0x90u8, 0xF0u8, 0x90u8, 0xF0u8,  // 8
        0xF0u8, 0x90u8, 0xF0u8, 0x10u8, 0xF0u8,  // 9
        0xF0u8, 0x90u8, 0xF0u8, 0x90u8, 0x90u8,  // A
        0xE0u8, 0x90u8, 0xE0u8, 0x90u8, 0xE0u8,  // B
        0xF0u8, 0x80u8, 0x80u8, 0x80u8, 0xF0u8,  // C
        0xE0u8, 0x90u8, 0x90u8, 0x90u8, 0xE0u8,  // D
        0xF0u8, 0x80u8, 0xF0u8, 0x80u8, 0xF0u8,  // E
        0xF0u8, 0x80u8, 0xF0u8, 0x80u8, 0x80u8,  // F
    ]
}

/// Memory at start-up: the font table in place, every other byte zero.
pub open spec fn initial_memory() -> Seq<u8> {
    Seq::new(
        MEMORY_SIZE as nat,
        |a: int|
            if FONT_START <= a < FONT_END {
                font_sprites()[a - FONT_START]
            } else {
                0u8
            },
    )
}

/// `m` with the bytes from `addr` on replaced by `src`.
pub open spec fn splice(m: Seq<u8>, addr: int, src: Seq<u8>) -> Seq<u8> {
    Seq::new(
        m.len(),
        |a: int|
            if addr <= a < addr + src.len() {
                src[a - addr]
            } else {
                m[a]
            },
    )
}

/// The instruction word fetched at `pc`: the sentinel byte alone stands for
/// the end-of-program word; any other byte is the high byte of a big-endian
/// word whose low byte follows it.
pub open spec fn spec_fetch(m: Seq<u8>, pc: int) -> Result<u16, Fault> {
    if pc < 0 || pc >= m.len() {
        Err(Fault::OutOfBounds)
    } else if m[pc] == EOF_BYTE {
        Ok(0x0A00u16)
    } else if pc + 1 >= m.len() {
        Err(Fault::OutOfBounds)
    } else {
        Ok((m[pc] as int * 256 + m[pc + 1] as int) as u16)
    }
}

/// Address of the glyph for a hex digit.
pub open spec fn glyph_address(digit: u8) -> usize {
    (FONT_START + FONT_SPRITE_STRIDE * digit) as usize
}

fn font_table() -> (r: Vec<u8>)
    ensures
        r@ == font_sprites(),
{
    let r = vec![
        0xF0, 0x90, 0x90, 0x90, 0xF0,  // 0
        0x20, 0x60, 0x20, 0x20, 0x70,  // 1
        0xF0, 0x10, 0xF0, 0x80, 0xF0,  // 2
        0xF0, 0x10, 0xF0, 0x10, 0xF0,  // 3
        0x90, 0x90, 0xF0, 0x10, 0x10,  // 4
        0xF0, 0x80, 0xF0, 0x10, 0xF0,  // 5
        0xF0, 0x80, 0xF0, 0x90, 0xF0,  // 6
        0xF0, 0x10, 0x20, 0x40, 0x40,  // 7
        0xF0, 0x90, 0xF0, 0x90, 0xF0,  // 8
        0xF0, 0x90, 0xF0, 0x10, 0xF0,  // 9
        0xF0, 0x90, 0xF0, 0x90, 0x90,  // A
        0xE0, 0x90, 0xE0, 0x90, 0xE0,  // B
        0xF0, 0x80, 0x80, 0x80, 0xF0,  // C
        0xE0, 0x90, 0x90, 0x90, 0xE0,  // D
        0xF0, 0x80, 0xF0, 0x80, 0xF0,  // E
        0xF0, 0x80, 0xF0, 0x80, 0x80,  // F
    ];
    assert(r@ =~= font_sprites());
    r
}

/// The machine's flat byte-addressable memory, with the font glyphs at
/// `FONT_START` and the program from `ROM_START` on.
pub struct MemoryBus {
    mem: Vec<u8>,
}

impl View for MemoryBus {
    type V = Seq<u8>;

    closed spec fn view(&self) -> Seq<u8> {
        self.mem@
    }
}

impl MemoryBus {
    /// All addresses present.
    pub open spec fn wf(&self) -> bool {
        self@.len() == MEMORY_SIZE
    }

    /// Address of the five-byte glyph for a hex digit; `InvalidDigit` for a
    /// value above 0xF.
    pub fn font_sprite_address(hex_char: u8) -> (r: Result<usize, Fault>)
        ensures
            hex_char <= 0xF ==> r == Ok::<usize, Fault>(glyph_address(hex_char)),
            hex_char > 0xF ==> r == Err::<usize, Fault>(Fault::InvalidDigit),
    {
        if hex_char <= 0xF {
            Ok(FONT_START + (hex_char as usize) * FONT_SPRITE_STRIDE)
        } else {
            Err(Fault::InvalidDigit)
        }
    }

    /// Memory with the font table in place and every other byte zero.
    pub fn new() -> (r: MemoryBus)
        ensures
            r.wf(),
            r@ == initial_memory(),
    {
        let mut mem = vec![0u8; MEMORY_SIZE];
        let font = font_table();
        let mut k: usize = 0;
        while k < FONT_END - FONT_START
            invariant
                k <= FONT_END - FONT_START,
                font@ == font_sprites(),
                mem@.len() == MEMORY_SIZE,
                forall|a: int|
                    0 <= a < MEMORY_SIZE ==> #[trigger] mem@[a] == if FONT_START <= a < FONT_START
                        + k {
                        font_sprites()[a - FONT_START]
                    } else {
                        0u8
                    },
            decreases FONT_END - FONT_START - k,
        {
            mem.set(FONT_START + k, font[k]);
            k = k + 1;
        }
        let r = MemoryBus { mem };
        assert(r@ =~= initial_memory());
        r
    }

    /// The byte at `addr`.
    pub fn read_word(&self, addr: usize) -> (r: Result<u8, Fault>)
        requires
            self.wf(),
        ensures
            addr < MEMORY_SIZE ==> r == Ok::<u8, Fault>(self@[addr as int]),
            addr >= MEMORY_SIZE ==> r == Err::<u8, Fault>(Fault::OutOfBounds),
    {
        if addr < self.mem.len() {
            Ok(self.mem[addr])
        } else {
            Err(Fault::OutOfBounds)
        }
    }

    /// Stores `value` at `addr`.
    pub fn write_word(&mut self, addr: usize, value: u8) -> (r: Result<(), Fault>)
        requires
            old(self).wf(),
        ensures
            final(self).wf(),
            addr < MEMORY_SIZE ==> r is Ok && final(self)@ == old(self)@.update(addr as int, value),
            addr >= MEMORY_SIZE ==> r == Err::<(), Fault>(Fault::OutOfBounds) && final(self)@
                == old(self)@,
    {
        if addr < self.mem.len() {
            self.mem.set(addr, value);
            Ok(())
        } else {
            Err(Fault::OutOfBounds)
        }
    }

    /// Copies `src` to the addresses from `addr` on; `OutOfBounds`, with
    /// nothing written, if it would run past the end of memory.
    pub fn write_words(&mut self, addr: usize, src: &[u8]) -> (r: Result<(), Fault>)
        requires
            old(self).wf(),
        ensures
            final(self).wf(),
            addr + src@.len() <= MEMORY_SIZE ==> r is Ok && final(self)@ == splice(
                old(self)@,
                addr as int,
                src@,
            ),
            addr + src@.len() > MEMORY_SIZE ==> r == Err::<(), Fault>(Fault::OutOfBounds)
                && final(self)@ == old(self)@,
    {
        if addr > self.mem.len() || src.len() > self.mem.len() - addr {
            return Err(Fault::OutOfBounds);
        }
        let ghost m0 = self.mem@;
        let mut k: usize = 0;
        while k < src.len()
            invariant
                addr + src@.len() <= MEMORY_SIZE,
                k <= src@.len(),
                self.mem@.len() == MEMORY_SIZE,
                forall|a: int|
                    0 <= a < MEMORY_SIZE ==> #[trigger] self.mem@[a] == if addr <= a < addr + k {
                        src@[a - addr]
                    } else {
                        m0[a]
                    },
            decreases src@.len() - k,
        {
            self.mem.set(addr + k, src[k]);
            k = k + 1;
        }
        assert(self@ =~= splice(m0, addr as int, src@));
        Ok(())
    }

    /// The `len` bytes from `addr` on; `OutOfBounds` if they would run past
    /// the end of memory.
    pub fn read_words(&self, addr: usize, len: usize) -> (r: Result<&[u8], Fault>)
        requires
            self.wf(),
        ensures
            addr + len <= MEMORY_SIZE ==> r is Ok && r->Ok_0@ == self@.subrange(
                addr as int,
                addr + len,
            ),
            addr + len > MEMORY_SIZE ==> r == Err::<&[u8], Fault>(Fault::OutOfBounds),
    {
        if addr > self.mem.len() || len > self.mem.len() - addr {
            return Err(Fault::OutOfBounds);
        }
        Ok(vstd::slice::slice_subrange(self.mem.as_slice(), addr, addr + len))
    }

    /// The instruction word at `addr`, big-endian. The sentinel byte 0x0A
    /// at `addr` gives the end-of-program word 0x0A00 without reading the
    /// next address, so a program may end on the last byte of memory.
    pub fn read_instruction(&self, addr: usize) -> (r: Result<u16, Fault>)
        requires
            self.wf(),
        ensures
            r == spec_fetch(self@, addr as int),
    {
        if addr >= self.mem.len() {
            return Err(Fault::OutOfBounds);
        }
        let word_1 = self.mem[addr];
        if word_1 == EOF_BYTE {
            Ok(0x0A00)
        } else {
            if addr + 1 >= self.mem.len() {
                return Err(Fault::OutOfBounds);
            }
            let word_2 = self.mem[addr + 1];
            assert(((word_1 as u16) << 8) | (word_2 as u16) == (word_1 as int * 256
                + word_2 as int) as u16) by (bit_vector);
            // opcodes are big-endian
            Ok(((word_1 as u16) << 8) | (word_2 as u16))
        }
    }

    /// Copies a program to the addresses from `ROM_START` on;
    /// `ProgramTooLarge`, with nothing written, if it does not fit.
    pub fn load_rom(&mut self, rom: &[u8]) -> (r: Result<(), Fault>)
        requires
            old(self).wf(),
        ensures
            final(self).wf(),
            rom@.len() <= MEMORY_SIZE - ROM_START ==> r is Ok && final(self)@ == splice(
                old(self)@,
                ROM_START as int,
                rom@,
            ),
            rom@.len() > MEMORY_SIZE - ROM_START ==> r == Err::<(), Fault>(
                Fault::ProgramTooLarge,
            ) && final(self)@ == old(self)@,
    {
        if rom.len() > MEMORY_SIZE - ROM_START {
            return Err(Fault::ProgramTooLarge);
        }
        self.write_words(ROM_START, rom)
    }
}

} // verus!
