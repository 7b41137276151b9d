//! The executable machine: its state, construction, instruction fetch and the
//! handler of each instruction.

use vstd::prelude::*;
use crate::font::{font_set, FONT_LEN, GLYPH_BYTES};
use crate::model::{
    add16, add8, blank_display, initial_machine, initial_memory, outcome, reference_quirks, row_of, col_of, sprite_bit, sprite_hits,
    Chip8Error, Machine, Quirks, FLAG, MEMORY_SIZE, NUM_KEYS, NUM_REGS, PIXELS, PROGRAM_START,
    STACK_LIMIT, HEIGHT, WIDTH, ToneAction, tone_action_spec,
};

verus! {

/// Relies on rand::random: draws a byte from the thread-local generator. Nothing
/// is promised of its value.
#[verifier::external_body]
fn random_byte() -> (r: u8) {
    rand::random::<u8>()
}

/// A CHIP-8 virtual machine.
pub struct Chip8 {
    memory: Vec<u8>,
    v: Vec<u8>,
    i: u16,
    pc: u16,
    stack: Vec<u16>,
    delay_timer: u8,
    sound_timer: u8,
    display: Vec<bool>,
    keys: Vec<bool>,
    quirks: Quirks,
}

impl View for Chip8 {
    type V = Machine;

    closed spec fn view(&self) -> Machine {
        Machine {
            memory: self.memory@,
            v: self.v@,
            i: self.i,
            pc: self.pc,
            stack: self.stack@,
            delay: self.delay_timer,
            sound: self.sound_timer,
            display: self.display@,
            keys: self.keys@,
            quirks: self.quirks,
        }
    }
}

impl Chip8 {
    /// A machine with the reference quirk settings: font loaded, program counter at
    /// the load address, everything else zero, empty or off.
    pub fn new() -> (r: Chip8)
        ensures
            r@ == initial_machine(reference_quirks()),
            r@.wf(),
    {
        Chip8::with_quirks(Quirks { shift_uses_vy: false, jump_uses_vx: false })
    }

    /// A freshly constructed machine with the given quirk settings.
    pub fn with_quirks(quirks: Quirks) -> (r: Chip8)
        ensures
            r@ == initial_machine(quirks),
            r@.wf(),
    {
        let font = font_set();
        let mut memory: Vec<u8> = vec![0u8; MEMORY_SIZE];
        let mut a: usize = 0;
        while a < FONT_LEN
            invariant
                a <= FONT_LEN,
                font@ == crate::font::font_seq(),
                font@.len() == FONT_LEN,
                memory@.len() == MEMORY_SIZE,
                forall |b: int| 0 <= b < a ==> memory@[b] == font@[b],
                forall |b: int| a <= b < MEMORY_SIZE ==> memory@[b] == 0u8,
            decreases FONT_LEN - a,
        {
            memory[a] = font[a];
            a = a + 1;
        }
        let r = Chip8 {
            memory,
            v: vec![0u8; NUM_REGS],
            i: 0,
            pc: PROGRAM_START as u16,
            stack: Vec::new(),
            delay_timer: 0,
            sound_timer: 0,
            display: vec![false; PIXELS],
            keys: vec![false; NUM_KEYS],
            quirks,
        };
        proof {
            assert(r@.memory =~= initial_memory());
            assert(r@.v =~= Seq::new(NUM_REGS as nat, |k: int| 0u8));
            assert(r@.display =~= blank_display());
            assert(r@.keys =~= Seq::new(NUM_KEYS as nat, |k: int| false));
            assert(r@.stack =~= Seq::<u16>::empty());
        }
        r
    }

    /// Copies a program image to memory from the load address on. A program
    /// longer than the space above the load address is refused and nothing is written.
    pub fn load_rom(&mut self, rom: &[u8]) -> (r: Result<(), Chip8Error>)
        requires
            old(self)@.wf(),
        ensures
            final(self)@.wf(),
            r is Err <==> rom@.len() > MEMORY_SIZE - PROGRAM_START,
            r is Err ==> r == Err::<(), Chip8Error>(Chip8Error::CapacityExceeded) && final(self)@ == old(self)@,
            r is Ok ==> final(self)@ == old(self)@.loaded(rom@),
    {
        if rom.len() > MEMORY_SIZE - PROGRAM_START {
            return Err(Chip8Error::CapacityExceeded);
        }
        let ghost before = self@;
        let mut k: usize = 0;
        while k < rom.len()
            invariant
                k <= rom@.len() <= MEMORY_SIZE - PROGRAM_START,
                self@ == (Machine { memory: self@.memory, ..before }),
                self@.memory.len() == MEMORY_SIZE,
                forall |a: int| 0 <= a < MEMORY_SIZE ==> #[trigger] self@.memory[a] == (
                    if PROGRAM_START <= a < PROGRAM_START + k { rom@[a - PROGRAM_START] } else { before.memory[a] }),
            decreases rom@.len() - k,
        {
            self.memory[PROGRAM_START + k] = rom[k];
            k = k + 1;
        }
        proof {
            assert(self@.memory =~= before.loaded(rom@).memory);
        }
        Ok(())
    }

    /// Reads the big-endian opcode at the program counter and advances the
    /// program counter by two. Fails, changing nothing, where the opcode would lie
    /// beyond the end of memory.
    pub fn fetch(&mut self) -> (r: Result<u16, Chip8Error>)
        requires
            old(self)@.wf(),
        ensures
            final(self)@.wf(),
            r is Err <==> old(self)@.fetch_out_of_range(),
            r is Err ==> r == Err::<u16, Chip8Error>(Chip8Error::AddressOutOfRange) && final(self)@ == old(self)@,
            r is Ok ==> r == Ok::<u16, Chip8Error>(old(self)@.opcode_at_pc())
                && final(self)@ == old(self)@.fetched(),
    {
        if self.pc as usize + 2 > MEMORY_SIZE {
            return Err(Chip8Error::AddressOutOfRange);
        }
        let high = self.memory[self.pc as usize];
        let low = self.memory[self.pc as usize + 1];
        let opcode = ((high as u16) << 8) | (low as u16);
        proof {
            assert(((high as u16) << 8u16) | (low as u16) == (high as u16) * 256 + (low as u16)) by (bit_vector);
        }
        self.pc = self.pc + 2;
        Ok(opcode)
    }
}


impl Chip8 {
    /// `00E0`: turns every pixel off.
    pub fn op_00e0(&mut self)
        requires
            old(self)@.wf(),
        ensures
            final(self)@.wf(),
            final(self)@ == (Machine { display: blank_display(), ..old(self)@ }),
    {
        let mut p: usize = 0;
        let ghost before = self@;
        while p < PIXELS
            invariant
                p <= PIXELS,
                self@ == (Machine { display: self@.display, ..before }),
                self@.display.len() == PIXELS,
                forall |q: int| 0 <= q < p ==> !#[trigger] self@.display[q],
            decreases PIXELS - p,
        {
            self.display[p] = false;
            p = p + 1;
        }
        proof {
            assert(self@.display =~= blank_display());
        }
    }

    /// `00EE`: pops the return address into the program counter; fails on an
    /// empty stack, changing nothing.
    pub fn op_00ee(&mut self) -> (r: Result<(), Chip8Error>)
        requires
            old(self)@.wf(),
        ensures
            final(self)@.wf(),
            outcome(r, final(self)@) == old(self)@.ret(),
            r is Err ==> final(self)@ == old(self)@,
    {
        match self.stack.pop() {
            Some(addr) => {
                self.pc = addr;
                Ok(())
            },
            None => Err(Chip8Error::StackUnderflow),
        }
    }

    /// `1nnn`: jumps to `nnn`.
    pub fn op_1nnn(&mut self, nnn: u16)
        requires
            old(self)@.wf(),
        ensures
            final(self)@.wf(),
            final(self)@ == (Machine { pc: nnn, ..old(self)@ }),
    {
        self.pc = nnn;
    }

    /// `2nnn`: pushes the program counter and jumps to `nnn`; fails on a full
    /// stack, changing nothing.
    pub fn op_2nnn(&mut self, nnn: u16) -> (r: Result<(), Chip8Error>)
        requires
            old(self)@.wf(),
        ensures
            final(self)@.wf(),
            outcome(r, final(self)@) == old(self)@.call(nnn),
            r is Err ==> final(self)@ == old(self)@,
    {
        if self.stack.len() >= STACK_LIMIT {
            return Err(Chip8Error::StackOverflow);
        }
        self.stack.push(self.pc);
        self.pc = nnn;
        Ok(())
    }

    /// Advances the program counter past one instruction, modulo 2^16.
    fn skip(&mut self)
        ensures
            final(self)@ == old(self)@.skip_if(true),
    {
        self.pc = self.pc.wrapping_add(2);
    }

    /// `3xnn`: skips the next instruction if `Vx == nn`.
    pub fn op_3xnn(&mut self, x: usize, nn: u8)
        requires
            old(self)@.wf(),
            x < NUM_REGS,
        ensures
            final(self)@.wf(),
            final(self)@ == old(self)@.skip_if(old(self)@.v[x as int] == nn),
    {
        if self.v[x] == nn {
            self.skip();
        }
    }

    /// `4xnn`: skips the next instruction if `Vx != nn`.
    pub fn op_4xnn(&mut self, x: usize, nn: u8)
        requires
            old(self)@.wf(),
            x < NUM_REGS,
        ensures
            final(self)@.wf(),
            final(self)@ == old(self)@.skip_if(old(self)@.v[x as int] != nn),
    {
        if self.v[x] != nn {
            self.skip();
        }
    }

    /// `5xy0`: skips the next instruction if `Vx == Vy`.
    pub fn op_5xy0(&mut self, x: usize, y: usize)
        requires
            old(self)@.wf(),
            x < NUM_REGS,
            y < NUM_REGS,
        ensures
            final(self)@.wf(),
            final(self)@ == old(self)@.skip_if(old(self)@.v[x as int] == old(self)@.v[y as int]),
    {
        if self.v[x] == self.v[y] {
            self.skip();
        }
    }

    /// `9xy0`: skips the next instruction if `Vx != Vy`.
    pub fn op_9xy0(&mut self, x: usize, y: usize)
        requires
            old(self)@.wf(),
            x < NUM_REGS,
            y < NUM_REGS,
        ensures
            final(self)@.wf(),
            final(self)@ == old(self)@.skip_if(old(self)@.v[x as int] != old(self)@.v[y as int]),
    {
        if self.v[x] != self.v[y] {
            self.skip();
        }
    }

    /// `6xnn`: `Vx = nn`.
    pub fn op_6xnn(&mut self, x: usize, nn: u8)
        requires
            old(self)@.wf(),
            x < NUM_REGS,
        ensures
            final(self)@.wf(),
            final(self)@ == old(self)@.set_v(x as int, nn),
    {
        self.v[x] = nn;
    }

    /// `7xnn`: `Vx = Vx + nn` modulo 256; `VF` is not touched.
    pub fn op_7xnn(&mut self, x: usize, nn: u8)
        requires
            old(self)@.wf(),
            x < NUM_REGS,
        ensures
            final(self)@.wf(),
            final(self)@ == old(self)@.set_v(x as int, add8(old(self)@.v[x as int], nn)),
    {
        self.v[x] = self.v[x].wrapping_add(nn);
    }

    /// `8xy0`: `Vx = Vy`.
    pub fn op_8xy0(&mut self, x: usize, y: usize)
        requires
            old(self)@.wf(),
            x < NUM_REGS,
            y < NUM_REGS,
        ensures
            final(self)@.wf(),
            final(self)@ == old(self)@.set_v(x as int, old(self)@.v[y as int]),
    {
        self.v[x] = self.v[y];
    }

    /// `8xy1`: `Vx = Vx | Vy`.
    pub fn op_8xy1(&mut self, x: usize, y: usize)
        requires
            old(self)@.wf(),
            x < NUM_REGS,
            y < NUM_REGS,
        ensures
            final(self)@.wf(),
            final(self)@ == old(self)@.set_v(x as int, old(self)@.v[x as int] | old(self)@.v[y as int]),
    {
        self.v[x] = self.v[x] | self.v[y];
    }

    /// `8xy2`: `Vx = Vx & Vy`.
    pub fn op_8xy2(&mut self, x: usize, y: usize)
        requires
            old(self)@.wf(),
            x < NUM_REGS,
            y < NUM_REGS,
        ensures
            final(self)@.wf(),
            final(self)@ == old(self)@.set_v(x as int, old(self)@.v[x as int] & old(self)@.v[y as int]),
    {
        self.v[x] = self.v[x] & self.v[y];
    }

    /// `8xy3`: `Vx = Vx ^ Vy`.
    pub fn op_8xy3(&mut self, x: usize, y: usize)
        requires
            old(self)@.wf(),
            x < NUM_REGS,
            y < NUM_REGS,
        ensures
            final(self)@.wf(),
            final(self)@ == old(self)@.set_v(x as int, old(self)@.v[x as int] ^ old(self)@.v[y as int]),
    {
        self.v[x] = self.v[x] ^ self.v[y];
    }

    /// `8xy4`: `VF` = carry out of `Vx + Vy`, then `Vx` = the sum modulo 256.
    pub fn op_8xy4(&mut self, x: usize, y: usize)
        requires
            old(self)@.wf(),
            x < NUM_REGS,
            y < NUM_REGS,
        ensures
            final(self)@.wf(),
            final(self)@ == old(self)@.add_reg(x as int, y as int),
    {
        let sum: u16 = self.v[x] as u16 + self.v[y] as u16;
        self.v[FLAG] = if sum > 0xFF { 1 } else { 0 };
        self.v[x] = (sum % 256) as u8;
    }

    /// `8xy5`: `VF` = whether `Vx >= Vy`, then `Vx = Vx - Vy` modulo 256.
    pub fn op_8xy5(&mut self, x: usize, y: usize)
        requires
            old(self)@.wf(),
            x < NUM_REGS,
            y < NUM_REGS,
        ensures
            final(self)@.wf(),
            final(self)@ == old(self)@.sub_reg(x as int, y as int),
    {
        self.v[FLAG] = if self.v[x] >= self.v[y] { 1 } else { 0 };
        self.v[x] = self.v[x].wrapping_sub(self.v[y]);
    }

    /// The register that the shift instructions read.
    fn shift_source(&self, x: usize, y: usize) -> (s: usize)
        requires
            x < NUM_REGS,
            y < NUM_REGS,
        ensures
            s == self@.shift_source(x as int, y as int),
    {
        if self.quirks.shift_uses_vy { y } else { x }
    }

    /// `8xy6`: `VF` = low bit of the source, then `Vx` = the source shifted right by one.
    pub fn op_8xy6(&mut self, x: usize, y: usize)
        requires
            old(self)@.wf(),
            x < NUM_REGS,
            y < NUM_REGS,
        ensures
            final(self)@.wf(),
            final(self)@ == old(self)@.shift_right(x as int, y as int),
    {
        let s = self.shift_source(x, y);
        self.v[FLAG] = self.v[s] & 1;
        self.v[x] = self.v[s] >> 1;
    }

    /// `8xy7`: `VF` = whether `Vy >= Vx`, then `Vx = Vy - Vx` modulo 256.
    pub fn op_8xy7(&mut self, x: usize, y: usize)
        requires
            old(self)@.wf(),
            x < NUM_REGS,
            y < NUM_REGS,
        ensures
            final(self)@.wf(),
            final(self)@ == old(self)@.sub_rev(x as int, y as int),
    {
        self.v[FLAG] = if self.v[y] >= self.v[x] { 1 } else { 0 };
        self.v[x] = self.v[y].wrapping_sub(self.v[x]);
    }

    /// `8xyE`: `VF` = high bit of the source, then `Vx` = the source shifted left by one.
    pub fn op_8xye(&mut self, x: usize, y: usize)
        requires
            old(self)@.wf(),
            x < NUM_REGS,
            y < NUM_REGS,
        ensures
            final(self)@.wf(),
            final(self)@ == old(self)@.shift_left(x as int, y as int),
    {
        let s = self.shift_source(x, y);
        self.v[FLAG] = (self.v[s] >> 7) & 1;
        self.v[x] = ((self.v[s] as u16 * 2) % 256) as u8;
    }

    /// `Annn`: `I = nnn`.
    pub fn op_annn(&mut self, nnn: u16)
        requires
            old(self)@.wf(),
        ensures
            final(self)@.wf(),
            final(self)@ == (Machine { i: nnn, ..old(self)@ }),
    {
        self.i = nnn;
    }

    /// `Bnnn`: jumps to `nnn` plus `V0` (or plus `Vx`, `x` the high nibble of
    /// `nnn`, under the `jump_uses_vx` quirk).
    pub fn op_bnnn(&mut self, nnn: u16)
        requires
            old(self)@.wf(),
            nnn < 0x1000,
        ensures
            final(self)@.wf(),
            final(self)@ == (Machine { pc: old(self)@.jump_target(nnn), ..old(self)@ }),
    {
        let r: usize = if self.quirks.jump_uses_vx { (nnn / 256) as usize } else { 0 };
        self.pc = nnn + self.v[r] as u16;
    }

    /// `Cxnn` with a given random byte: `Vx = rnd & nn`.
    pub fn op_cxnn_with(&mut self, x: usize, nn: u8, rnd: u8)
        requires
            old(self)@.wf(),
            x < NUM_REGS,
        ensures
            final(self)@.wf(),
            final(self)@ == old(self)@.set_v(x as int, rnd & nn),
    {
        self.v[x] = rnd & nn;
    }

    /// `Cxnn`: `Vx` = a random byte masked with `nn`.
    pub fn op_cxnn(&mut self, x: usize, nn: u8)
        requires
            old(self)@.wf(),
            x < NUM_REGS,
        ensures
            final(self)@.wf(),
            exists |rnd: u8| final(self)@ == old(self)@.set_v(x as int, rnd & nn),
    {
        let rnd = random_byte();
        self.op_cxnn_with(x, nn, rnd);
    }

    /// `Ex9E`: skips the next instruction if key `Vx` is pressed; fails,
    /// changing nothing, where `Vx` names no key.
    pub fn op_ex9e(&mut self, x: usize) -> (r: Result<(), Chip8Error>)
        requires
            old(self)@.wf(),
            x < NUM_REGS,
        ensures
            final(self)@.wf(),
            outcome(r, final(self)@) == old(self)@.skip_key(x as int, true),
            r is Err ==> final(self)@ == old(self)@,
    {
        let k = self.v[x] as usize;
        if k >= NUM_KEYS {
            return Err(Chip8Error::KeyOutOfRange);
        }
        if self.keys[k] {
            self.skip();
        }
        Ok(())
    }

    /// `ExA1`: skips the next instruction if key `Vx` is not pressed; fails,
    /// changing nothing, where `Vx` names no key.
    pub fn op_exa1(&mut self, x: usize) -> (r: Result<(), Chip8Error>)
        requires
            old(self)@.wf(),
            x < NUM_REGS,
        ensures
            final(self)@.wf(),
            outcome(r, final(self)@) == old(self)@.skip_key(x as int, false),
            r is Err ==> final(self)@ == old(self)@,
    {
        let k = self.v[x] as usize;
        if k >= NUM_KEYS {
            return Err(Chip8Error::KeyOutOfRange);
        }
        if !self.keys[k] {
            self.skip();
        }
        Ok(())
    }

    /// `Fx07`: `Vx` = the delay timer.
    pub fn op_fx07(&mut self, x: usize)
        requires
            old(self)@.wf(),
            x < NUM_REGS,
        ensures
            final(self)@.wf(),
            final(self)@ == old(self)@.set_v(x as int, old(self)@.delay),
    {
        self.v[x] = self.delay_timer;
    }

    /// `Fx15`: the delay timer = `Vx`.
    pub fn op_fx15(&mut self, x: usize)
        requires
            old(self)@.wf(),
            x < NUM_REGS,
        ensures
            final(self)@.wf(),
            final(self)@ == (Machine { delay: old(self)@.v[x as int], ..old(self)@ }),
    {
        self.delay_timer = self.v[x];
    }

    /// `Fx18`: the sound timer = `Vx`.
    pub fn op_fx18(&mut self, x: usize)
        requires
            old(self)@.wf(),
            x < NUM_REGS,
        ensures
            final(self)@.wf(),
            final(self)@ == (Machine { sound: old(self)@.v[x as int], ..old(self)@ }),
    {
        self.sound_timer = self.v[x];
    }

    /// `Fx1E`: `I = I + Vx` modulo 2^16, no flag.
    pub fn op_fx1e(&mut self, x: usize)
        requires
            old(self)@.wf(),
            x < NUM_REGS,
        ensures
            final(self)@.wf(),
            final(self)@ == (Machine { i: add16(old(self)@.i, old(self)@.v[x as int] as u16), ..old(self)@ }),
    {
        self.i = self.i.wrapping_add(self.v[x] as u16);
    }

    /// `Fx29`: `I` = the address of the font glyph for digit `Vx`.
    pub fn op_fx29(&mut self, x: usize)
        requires
            old(self)@.wf(),
            x < NUM_REGS,
        ensures
            final(self)@.wf(),
            final(self)@ == (Machine { i: (old(self)@.v[x as int] * 5) as u16, ..old(self)@ }),
    {
        self.i = (self.v[x] as u16) * GLYPH_BYTES;
    }
}


impl Chip8 {
    /// `Fx33`: stores the hundreds, tens and ones digits of `Vx` at `I`, `I+1`
    /// and `I+2`; fails, changing nothing, where those lie outside memory.
    pub fn op_fx33(&mut self, x: usize) -> (r: Result<(), Chip8Error>)
        requires
            old(self)@.wf(),
            x < NUM_REGS,
        ensures
            final(self)@.wf(),
            r is Err <==> old(self)@.block_out_of_range(3),
            r is Err ==> r == Err::<(), Chip8Error>(Chip8Error::AddressOutOfRange) && final(self)@ == old(self)@,
            r is Ok ==> final(self)@ == old(self)@.bcd(x as int),
    {
        let i = self.i as usize;
        if i + 3 > MEMORY_SIZE {
            return Err(Chip8Error::AddressOutOfRange);
        }
        let val = self.v[x];
        self.memory[i] = val / 100;
        self.memory[i + 1] = (val / 10) % 10;
        self.memory[i + 2] = val % 10;
        Ok(())
    }

    /// `Fx55`: stores `V0..=Vx` at `I..=I+x`; fails, changing nothing, where
    /// that block lies outside memory.
    pub fn op_fx55(&mut self, x: usize) -> (r: Result<(), Chip8Error>)
        requires
            old(self)@.wf(),
            x < NUM_REGS,
        ensures
            final(self)@.wf(),
            r is Err <==> old(self)@.block_out_of_range(x + 1),
            r is Err ==> r == Err::<(), Chip8Error>(Chip8Error::AddressOutOfRange) && final(self)@ == old(self)@,
            r is Ok ==> final(self)@ == old(self)@.store_regs(x as int),
    {
        let i = self.i as usize;
        if i + x + 1 > MEMORY_SIZE {
            return Err(Chip8Error::AddressOutOfRange);
        }
        let ghost before = self@;
        let mut k: usize = 0;
        while k <= x
            invariant
                x < NUM_REGS,
                i == before.i,
                i + x + 1 <= MEMORY_SIZE,
                k <= x + 1,
                before.wf(),
                self@ == (Machine { memory: self@.memory, ..before }),
                self@.memory.len() == MEMORY_SIZE,
                forall |a: int| 0 <= a < MEMORY_SIZE ==> #[trigger] self@.memory[a] == (
                    if i <= a < i + k { before.v[a - i] } else { before.memory[a] }),
            decreases x + 1 - k,
        {
            self.memory[i + k] = self.v[k];
            k = k + 1;
        }
        proof {
            assert(self@.memory =~= before.store_regs(x as int).memory);
        }
        Ok(())
    }

    /// `Fx65`: loads `V0..=Vx` from `I..=I+x`; fails, changing nothing, where
    /// that block lies outside memory.
    pub fn op_fx65(&mut self, x: usize) -> (r: Result<(), Chip8Error>)
        requires
            old(self)@.wf(),
            x < NUM_REGS,
        ensures
            final(self)@.wf(),
            r is Err <==> old(self)@.block_out_of_range(x + 1),
            r is Err ==> r == Err::<(), Chip8Error>(Chip8Error::AddressOutOfRange) && final(self)@ == old(self)@,
            r is Ok ==> final(self)@ == old(self)@.load_regs(x as int),
    {
        let i = self.i as usize;
        if i + x + 1 > MEMORY_SIZE {
            return Err(Chip8Error::AddressOutOfRange);
        }
        let ghost before = self@;
        let mut k: usize = 0;
        while k <= x
            invariant
                x < NUM_REGS,
                i == before.i,
                i + x + 1 <= MEMORY_SIZE,
                k <= x + 1,
                before.wf(),
                self@ == (Machine { v: self@.v, ..before }),
                self@.v.len() == NUM_REGS,
                forall |r: int| 0 <= r < NUM_REGS ==> #[trigger] self@.v[r] == (
                    if r < k { before.memory[i + r] } else { before.v[r] }),
            decreases x + 1 - k,
        {
            self.v[k] = self.memory[i + k];
            k = k + 1;
        }
        proof {
            assert(self@.v =~= before.load_regs(x as int).v);
        }
        Ok(())
    }

    /// `Fx0A`: stores the lowest pressed key in `Vx`; with no key pressed, moves
    /// the program counter back two (not below zero) so the instruction repeats.
    pub fn op_fx0a(&mut self, x: usize)
        requires
            old(self)@.wf(),
            x < NUM_REGS,
        ensures
            final(self)@.wf(),
            final(self)@ == old(self)@.wait_key(x as int),
    {
        let ghost before = self@;
        let mut k: usize = 0;
        while k < NUM_KEYS && !self.keys[k]
            invariant
                k <= NUM_KEYS,
                self@ == before,
                before.wf(),
                forall |j: int| 0 <= j < k ==> !#[trigger] before.keys[j],
            decreases NUM_KEYS - k,
        {
            k = k + 1;
        }
        if k < NUM_KEYS {
            proof {
                assert(before.is_first_key(k as int));
                let c = choose |c: int| before.is_first_key(c);
                assert(c == k as int) by {
                    if c < k as int {
                        assert(!before.keys[c]);
                    }
                    if c > k as int {
                        assert(!before.keys[k as int]);
                    }
                }
            }
            self.v[x] = k as u8;
        } else {
            self.pc = self.pc.saturating_sub(2);
        }
    }
}


/// Whether pixel `p` is toggled by the part of the sprite drawn before position
/// `(row, col)`, rows first.
spec fn drawn_before(m: Machine, n: u8, ox: int, oy: int, p: int, row: int, col: int) -> bool {
    &&& sprite_hits(m.memory, m.i, n, ox, oy, p)
    &&& (row_of(oy, p) < row || (row_of(oy, p) == row && col_of(ox, p) < col))
}

/// Whether drawing up to `(row, col)` has turned off a pixel that was on.
spec fn collided_before(m: Machine, n: u8, ox: int, oy: int, row: int, col: int) -> bool {
    exists |q: int| 0 <= q < PIXELS && #[trigger] m.display[q] && drawn_before(m, n, ox, oy, q, row, col)
}

/// Splits `p = a * 64 + b` back into its row `a` and column `b`.
proof fn lemma_split_pixel(p: int, a: int, b: int)
    requires
        0 <= b < 64,
        p == a * 64 + b,
    ensures
        p % 64 == b,
        p / 64 == a,
{
    vstd::arithmetic::div_mod::lemma_fundamental_div_mod_converse(p, 64, a, b);
}

/// The pixel that sprite bit `(row, col)` lands on is the only pixel whose
/// sprite position is `(row, col)`.
proof fn lemma_target(ox: int, oy: int, row: int, col: int, q: int)
    requires
        0 <= ox < 64,
        0 <= oy < 32,
        0 <= row < 32,
        0 <= col < 64,
        0 <= q < PIXELS,
    ensures
        0 <= ((oy + row) % 32) * 64 + (ox + col) % 64 < PIXELS,
        row_of(oy, ((oy + row) % 32) * 64 + (ox + col) % 64) == row,
        col_of(ox, ((oy + row) % 32) * 64 + (ox + col) % 64) == col,
        row_of(oy, q) == row && col_of(ox, q) == col ==> q == ((oy + row) % 32) * 64 + (ox + col) % 64,
{
    let a = (oy + row) % 32;
    let b = (ox + col) % 64;
    let t = a * 64 + b;
    assert(0 <= a < 32);
    assert(0 <= b < 64);
    assert(0 <= t < PIXELS) by (nonlinear_arith)
        requires 0 <= a < 32, 0 <= b < 64, t == a * 64 + b;
    lemma_split_pixel(t, a, b);
    assert((a - oy) % 32 == row);
    assert((b - ox) % 64 == col);
    let qa = q / 64;
    let qb = q % 64;
    vstd::arithmetic::div_mod::lemma_fundamental_div_mod(q, 64);
    assert(0 <= qa < 32) by (nonlinear_arith)
        requires 0 <= q < 2048, qa == q / 64;
    if row_of(oy, q) == row && col_of(ox, q) == col {
        assert((qa - oy) % 32 == row);
        assert((qb - ox) % 64 == col);
        assert(qa == a);
        assert(qb == b);
    }
}

impl Chip8 {
    /// `Dxyn`: draws the `n`-row sprite stored at `I` with its origin at
    /// `(Vx mod 64, Vy mod 32)`, toggling pixels with wrap-around on both axes;
    /// `VF` becomes 1 if some pixel went from on to off, else 0. Fails, changing
    /// nothing, where the sprite lies outside memory.
    pub fn op_dxyn(&mut self, x: usize, y: usize, n: u8) -> (r: Result<(), Chip8Error>)
        requires
            old(self)@.wf(),
            x < NUM_REGS,
            y < NUM_REGS,
            n < 16,
        ensures
            final(self)@.wf(),
            r is Err <==> old(self)@.sprite_out_of_range(n),
            r is Err ==> r == Err::<(), Chip8Error>(Chip8Error::AddressOutOfRange) && final(self)@ == old(self)@,
            r is Ok ==> final(self)@ == old(self)@.draw(x as int, y as int, n),
    {
        let i = self.i as usize;
        if n > 0 && i + n as usize > MEMORY_SIZE {
            return Err(Chip8Error::AddressOutOfRange);
        }
        let ox: usize = (self.v[x] % 64) as usize;
        let oy: usize = (self.v[y] % 32) as usize;
        let ghost before = self@;
        let mut collided = false;
        let mut row: usize = 0;
        while row < n as usize
            invariant
                before.wf(),
                n < 16,
                row <= n,
                i == before.i,
                n > 0 ==> i + n <= MEMORY_SIZE,
                ox < 64,
                oy < 32,
                self@ == (Machine { display: self@.display, ..before }),
                self@.display.len() == PIXELS,
                forall |p: int| 0 <= p < PIXELS ==> #[trigger] self@.display[p] == (
                    before.display[p] != drawn_before(before, n, ox as int, oy as int, p, row as int, 0)),
                collided == collided_before(before, n, ox as int, oy as int, row as int, 0),
            decreases n - row,
        {
            let byte = self.memory[i + row];
            let mut col: usize = 0;
            while col < 8
                invariant
                    before.wf(),
                    n < 16,
                    row < n,
                    col <= 8,
                    i == before.i,
                    i + n <= MEMORY_SIZE,
                    byte == before.memory[i + row],
                    ox < 64,
                    oy < 32,
                    self@ == (Machine { display: self@.display, ..before }),
                    self@.display.len() == PIXELS,
                    forall |p: int| 0 <= p < PIXELS ==> #[trigger] self@.display[p] == (
                        before.display[p] != drawn_before(before, n, ox as int, oy as int, p, row as int, col as int)),
                    collided == collided_before(before, n, ox as int, oy as int, row as int, col as int),
                decreases 8 - col,
            {
                let bit = (byte >> ((7 - col) as u8)) & 1;
                let ghost d0 = self@.display;
                let ghost c0 = collided;
                proof {
                    lemma_target(ox as int, oy as int, row as int, col as int, 0);
                    assert forall |q: int| 0 <= q < PIXELS implies
                        (row_of(oy as int, q) == row && col_of(ox as int, q) == col) ==
                        (q == ((oy + row) % 32) * 64 + (ox + col) % 64) by {
                        lemma_target(ox as int, oy as int, row as int, col as int, q);
                    }
                }
                if bit == 1 {
                    let t = ((oy + row) % 32) * 64 + (ox + col) % 64;
                    let old_pixel = self.display[t];
                    self.display[t] = !old_pixel;
                    if old_pixel {
                        collided = true;
                    }
                    proof {
                        assert(sprite_bit(byte, col as int));
                        assert(drawn_before(before, n, ox as int, oy as int, t as int, row as int, col as int + 1));
                        assert(!drawn_before(before, n, ox as int, oy as int, t as int, row as int, col as int));
                        assert forall |q: int| 0 <= q < PIXELS && q != t implies
                            drawn_before(before, n, ox as int, oy as int, q, row as int, col as int + 1)
                            == drawn_before(before, n, ox as int, oy as int, q, row as int, col as int) by {}
                        if collided {
                            if old_pixel {
                                assert(before.display[t as int]);
                            } else {
                                let w = choose |q: int| 0 <= q < PIXELS && #[trigger] before.display[q]
                                    && drawn_before(before, n, ox as int, oy as int, q, row as int, col as int);
                                assert(drawn_before(before, n, ox as int, oy as int, w, row as int, col as int + 1));
                            }
                            assert(collided_before(before, n, ox as int, oy as int, row as int, col as int + 1));
                        } else {
                            assert(!before.display[t as int]);
                            if collided_before(before, n, ox as int, oy as int, row as int, col as int + 1) {
                                let w = choose |q: int| 0 <= q < PIXELS && #[trigger] before.display[q]
                                    && drawn_before(before, n, ox as int, oy as int, q, row as int, col as int + 1);
                                assert(w != t);
                                assert(collided_before(before, n, ox as int, oy as int, row as int, col as int));
                            }
                        }
                    }
                } else {
                    proof {
                        assert(!sprite_bit(byte, col as int));
                        assert forall |q: int| 0 <= q < PIXELS implies
                            drawn_before(before, n, ox as int, oy as int, q, row as int, col as int + 1)
                            == drawn_before(before, n, ox as int, oy as int, q, row as int, col as int) by {}
                        assert(collided_before(before, n, ox as int, oy as int, row as int, col as int + 1)
                            == collided_before(before, n, ox as int, oy as int, row as int, col as int));
                    }
                }
                col = col + 1;
            }
            proof {
                assert forall |q: int| 0 <= q < PIXELS implies
                    drawn_before(before, n, ox as int, oy as int, q, row as int, 8)
                    == drawn_before(before, n, ox as int, oy as int, q, row as int + 1, 0) by {}
                assert(collided_before(before, n, ox as int, oy as int, row as int, 8)
                    == collided_before(before, n, ox as int, oy as int, row as int + 1, 0));
            }
            row = row + 1;
        }
        self.v[FLAG] = if collided { 1 } else { 0 };
        proof {
            let ghost target = before.draw(x as int, y as int, n);
            assert forall |q: int| 0 <= q < PIXELS implies
                drawn_before(before, n, ox as int, oy as int, q, n as int, 0)
                == sprite_hits(before.memory, before.i, n, ox as int, oy as int, q) by {}
            assert(self@.display =~= target.display);
            assert(collided == (exists |p: int|
                0 <= p < PIXELS && #[trigger] before.display[p]
                && sprite_hits(before.memory, before.i, n, ox as int, oy as int, p)));
        }
        Ok(())
    }
}


impl Chip8 {
    /// The program counter.
    pub fn pc(&self) -> (r: u16)
        ensures
            r == self@.pc,
    {
        self.pc
    }

    /// Sets the program counter.
    pub fn set_pc(&mut self, pc: u16)
        ensures
            final(self)@ == (Machine { pc, ..old(self)@ }),
    {
        self.pc = pc;
    }

    /// The index register.
    pub fn index(&self) -> (r: u16)
        ensures
            r == self@.i,
    {
        self.i
    }

    /// Sets the index register.
    pub fn set_index(&mut self, i: u16)
        ensures
            final(self)@ == (Machine { i, ..old(self)@ }),
    {
        self.i = i;
    }

    /// General-purpose register `x`.
    pub fn register(&self, x: usize) -> (r: u8)
        requires
            self@.wf(),
            x < NUM_REGS,
        ensures
            r == self@.v[x as int],
    {
        self.v[x]
    }

    /// Sets general-purpose register `x`.
    pub fn set_register(&mut self, x: usize, val: u8)
        requires
            old(self)@.wf(),
            x < NUM_REGS,
        ensures
            final(self)@.wf(),
            final(self)@ == old(self)@.set_v(x as int, val),
    {
        self.v[x] = val;
    }

    /// The byte at `addr`, or `None` outside memory.
    pub fn read_byte(&self, addr: usize) -> (r: Option<u8>)
        requires
            self@.wf(),
        ensures
            addr < MEMORY_SIZE ==> r == Some(self@.memory[addr as int]),
            addr >= MEMORY_SIZE ==> r is None,
    {
        if addr < MEMORY_SIZE { Some(self.memory[addr]) } else { None }
    }

    /// Writes the byte at `addr`; fails, changing nothing, outside memory.
    pub fn write_byte(&mut self, addr: usize, val: u8) -> (r: Result<(), Chip8Error>)
        requires
            old(self)@.wf(),
        ensures
            final(self)@.wf(),
            r is Err <==> addr >= MEMORY_SIZE,
            r is Err ==> r == Err::<(), Chip8Error>(Chip8Error::AddressOutOfRange) && final(self)@ == old(self)@,
            r is Ok ==> final(self)@ == (Machine { memory: old(self)@.memory.update(addr as int, val), ..old(self)@ }),
    {
        if addr >= MEMORY_SIZE {
            return Err(Chip8Error::AddressOutOfRange);
        }
        self.memory[addr] = val;
        Ok(())
    }

    /// The number of return addresses on the call stack.
    pub fn stack_depth(&self) -> (r: usize)
        ensures
            r == self@.stack.len(),
    {
        self.stack.len()
    }

    /// The delay timer.
    pub fn delay_timer(&self) -> (r: u8)
        ensures
            r == self@.delay,
    {
        self.delay_timer
    }

    /// The sound timer.
    pub fn sound_timer(&self) -> (r: u8)
        ensures
            r == self@.sound,
    {
        self.sound_timer
    }

    /// Sets the delay timer.
    pub fn set_delay_timer(&mut self, val: u8)
        ensures
            final(self)@ == (Machine { delay: val, ..old(self)@ }),
    {
        self.delay_timer = val;
    }

    /// Sets the sound timer.
    pub fn set_sound_timer(&mut self, val: u8)
        ensures
            final(self)@ == (Machine { sound: val, ..old(self)@ }),
    {
        self.sound_timer = val;
    }

    /// XORs `bit` into the pixel in column `x`, row `y`, and reports whether
    /// that turned a lit pixel off.
    pub fn blit(&mut self, x: usize, y: usize, bit: bool) -> (collided: bool)
        requires
            old(self)@.wf(),
            x < WIDTH,
            y < HEIGHT,
        ensures
            final(self)@.wf(),
            final(self)@ == (Machine {
                display: old(self)@.display.update(y * 64 + x, old(self)@.display[y * 64 + x] != bit),
                ..old(self)@
            }),
            collided == (bit && old(self)@.display[y * 64 + x]),
    {
        let p = y * WIDTH + x;
        let was = self.display[p];
        self.display[p] = was != bit;
        bit && was
    }

    /// The quirk settings.
    pub fn quirks(&self) -> (r: Quirks)
        ensures
            r == self@.quirks,
    {
        self.quirks
    }

    /// Counts both timers down by one, each stopping at zero, and says what the
    /// audio collaborator should do given whether a tone is playing.
    pub fn tick(&mut self, tone_on: bool) -> (r: ToneAction)
        requires
            old(self)@.wf(),
        ensures
            final(self)@.wf(),
            final(self)@ == old(self)@.ticked(),
            r == tone_action_spec(tone_on, old(self)@.sound),
    {
        let r = tone_action(tone_on, self.sound_timer);
        self.delay_timer = self.delay_timer.saturating_sub(1);
        self.sound_timer = self.sound_timer.saturating_sub(1);
        r
    }

    /// Whether key `k` is pressed.
    pub fn key(&self, k: usize) -> (r: bool)
        requires
            self@.wf(),
            k < NUM_KEYS,
        ensures
            r == self@.keys[k as int],
    {
        self.keys[k]
    }

    /// Replaces the whole key snapshot.
    pub fn set_keys(&mut self, keys: [bool; 16])
        requires
            old(self)@.wf(),
        ensures
            final(self)@.wf(),
            final(self)@ == (Machine { keys: keys@, ..old(self)@ }),
    {
        let ghost before = self@;
        let mut k: usize = 0;
        while k < NUM_KEYS
            invariant
                k <= NUM_KEYS,
                keys@.len() == NUM_KEYS,
                self@ == (Machine { keys: self@.keys, ..before }),
                self@.keys.len() == NUM_KEYS,
                forall |j: int| 0 <= j < k ==> #[trigger] self@.keys[j] == keys@[j],
            decreases NUM_KEYS - k,
        {
            self.keys[k] = keys[k];
            k = k + 1;
        }
        proof {
            assert(self@.keys =~= keys@);
        }
    }

    /// Whether the pixel in column `x`, row `y` is on.
    pub fn pixel(&self, x: usize, y: usize) -> (r: bool)
        requires
            self@.wf(),
            x < WIDTH,
            y < HEIGHT,
        ensures
            r == self@.display[y * 64 + x],
    {
        self.display[y * WIDTH + x]
    }

    /// A copy of the display, row by row.
    pub fn display_snapshot(&self) -> (r: Vec<bool>)
        requires
            self@.wf(),
        ensures
            r@ == self@.display,
    {
        let mut r: Vec<bool> = Vec::new();
        let mut p: usize = 0;
        while p < PIXELS
            invariant
                p <= PIXELS,
                self@.display.len() == PIXELS,
                r@ == self@.display.subrange(0, p as int),
            decreases PIXELS - p,
        {
            r.push(self.display[p]);
            p = p + 1;
            proof {
                assert(r@ =~= self@.display.subrange(0, p as int));
            }
        }
        proof {
            assert(r@ =~= self@.display);
        }
        r
    }

    /// The display as a row-by-row pixel buffer: white for on, black for off.
    pub fn get_display_buffer(&self) -> (r: Vec<u32>)
        requires
            self@.wf(),
        ensures
            r@ == Seq::new(PIXELS as nat, |p: int| pixel_colour(self@.display[p])),
    {
        let mut buffer: Vec<u32> = vec![0u32; PIXELS];
        let mut y: usize = 0;
        while y < HEIGHT
            invariant
                y <= HEIGHT,
                self@.display.len() == PIXELS,
                buffer@.len() == PIXELS,
                forall |p: int| 0 <= p < y * 64 ==> #[trigger] buffer@[p] == pixel_colour(self@.display[p]),
            decreases HEIGHT - y,
        {
            let mut x: usize = 0;
            while x < WIDTH
                invariant
                    y < HEIGHT,
                    x <= WIDTH,
                    self@.display.len() == PIXELS,
                    buffer@.len() == PIXELS,
                    forall |p: int| 0 <= p < y * 64 + x ==> #[trigger] buffer@[p] == pixel_colour(self@.display[p]),
                decreases WIDTH - x,
            {
                let p = y * WIDTH + x;
                buffer[p] = if self.display[p] { WHITE } else { BLACK };
                x = x + 1;
            }
            y = y + 1;
        }
        proof {
            assert(buffer@ =~= Seq::new(PIXELS as nat, |p: int| pixel_colour(self@.display[p])));
        }
        buffer
    }
}

/// Colour of a lit pixel in the pixel buffer.
pub const WHITE: u32 = 0xFFFFFF;

/// Colour of an unlit pixel in the pixel buffer.
pub const BLACK: u32 = 0x000000;

/// The buffer colour of a pixel.
pub open spec fn pixel_colour(on: bool) -> u32 {
    if on { WHITE } else { BLACK }
}

/// The tone decision for a frame, from whether a tone is playing and the sound
/// timer before the tick.
pub fn tone_action(tone_on: bool, sound: u8) -> (r: ToneAction)
    ensures
        r == tone_action_spec(tone_on, sound),
{
    if sound > 0 {
        if tone_on { ToneAction::Keep } else { ToneAction::Start }
    } else {
        if tone_on { ToneAction::Stop } else { ToneAction::Keep }
    }
}

} // verus!
