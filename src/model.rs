//! The mathematical model of the machine and the meaning of each instruction
//! as a transition on that model.

use vstd::prelude::*;
use crate::font::font_seq;
use crate::instruction::Instruction;

verus! {

/// Bytes of addressable memory.
pub const MEMORY_SIZE: usize = 4096;

/// Address at which programs are loaded.
pub const PROGRAM_START: usize = 0x200;

/// Number of general-purpose registers.
pub const NUM_REGS: usize = 16;

/// Index of the flag register `VF`.
pub const FLAG: usize = 15;

/// Number of keys on the keypad.
pub const NUM_KEYS: usize = 16;

/// Display width in pixels.
pub const WIDTH: usize = 64;

/// Display height in pixels.
pub const HEIGHT: usize = 32;

/// Number of pixels on the display.
pub const PIXELS: usize = 2048;

/// Maximum depth of the call stack.
pub const STACK_LIMIT: usize = 16;

/// Errors reported by the machine.
#[derive(Clone, Copy, Debug, PartialEq, Eq, Structural)]
pub enum Chip8Error {
    /// A program does not fit in memory above the load address.
    CapacityExceeded,
    /// A return was executed with an empty call stack.
    StackUnderflow,
    /// A call was executed with a full call stack.
    StackOverflow,
    /// An instruction would read or write memory outside the address space.
    AddressOutOfRange,
    /// A key instruction named a key index outside `0..16`.
    KeyOutOfRange,
}

/// What the audio collaborator should do after a frame's timer tick.
#[derive(Clone, Copy, Debug, PartialEq, Eq, Structural)]
pub enum ToneAction {
    /// Start the tone: the sound timer is running and no tone is playing.
    Start,
    /// Stop the tone: the sound timer has run out and a tone is playing.
    Stop,
    /// Leave the tone as it is.
    Keep,
}

/// The tone decision for a frame, from whether a tone is playing and the sound
/// timer before the tick.
pub open spec fn tone_action_spec(tone_on: bool, sound: u8) -> ToneAction {
    if sound > 0 {
        if tone_on { ToneAction::Keep } else { ToneAction::Start }
    } else {
        if tone_on { ToneAction::Stop } else { ToneAction::Keep }
    }
}

/// Choices between behaviours that historical interpreters disagree on.
#[derive(Clone, Copy, Debug, PartialEq, Eq, Structural)]
pub struct Quirks {
    /// `8xy6` and `8xyE` shift `Vy` into `Vx` instead of shifting `Vx` in place.
    pub shift_uses_vy: bool,
    /// `Bnnn` adds `Vx` (the high nibble of `nnn`) instead of `V0`.
    pub jump_uses_vx: bool,
}

/// The complete state of a machine.
pub struct Machine {
    /// The 4096-byte address space.
    pub memory: Seq<u8>,
    /// Registers `V0` to `VF`.
    pub v: Seq<u8>,
    /// The index register.
    pub i: u16,
    /// The program counter.
    pub pc: u16,
    /// Return addresses, the most recent last.
    pub stack: Seq<u16>,
    /// The delay timer.
    pub delay: u8,
    /// The sound timer.
    pub sound: u8,
    /// Pixels row by row: pixel `(x, y)` is at `y * 64 + x`.
    pub display: Seq<bool>,
    /// Whether each of the sixteen keys is pressed.
    pub keys: Seq<bool>,
    /// The quirk settings.
    pub quirks: Quirks,
}

/// `a + b` modulo 2^8.
pub open spec fn add8(a: u8, b: u8) -> u8 {
    ((a + b) % 256) as u8
}

/// `a - b` modulo 2^8.
pub open spec fn sub8(a: u8, b: u8) -> u8 {
    if a >= b { (a - b) as u8 } else { (a - b + 256) as u8 }
}

/// `a + b` modulo 2^16.
pub open spec fn add16(a: u16, b: u16) -> u16 {
    ((a + b) % 65536) as u16
}

/// Memory right after construction: the font set, then zeros.
pub open spec fn initial_memory() -> Seq<u8> {
    Seq::new(MEMORY_SIZE as nat, |a: int| if a < 80 { font_seq()[a] } else { 0u8 })
}

/// A display with every pixel off.
pub open spec fn blank_display() -> Seq<bool> {
    Seq::new(PIXELS as nat, |p: int| false)
}

/// Bit `col` (0 is the most significant) of a sprite byte.
pub open spec fn sprite_bit(b: u8, col: int) -> bool {
    (b >> ((7 - col) as u8)) & 1u8 == 1u8
}

/// The sprite row that covers pixel `p` when a sprite is drawn with its origin at `(ox, oy)`,
/// counting with wrap-around.
pub open spec fn row_of(oy: int, p: int) -> int {
    (p / 64 - oy) % 32
}

/// The sprite column that covers pixel `p` for origin `(ox, oy)`, with wrap-around.
pub open spec fn col_of(ox: int, p: int) -> int {
    (p % 64 - ox) % 64
}

/// Whether drawing the `n`-row sprite at address `i` with origin `(ox, oy)` toggles pixel `p`.
pub open spec fn sprite_hits(mem: Seq<u8>, i: u16, n: u8, ox: int, oy: int, p: int) -> bool {
    let r = row_of(oy, p);
    let c = col_of(ox, p);
    r < n && c < 8 && sprite_bit(mem[i + r], c)
}

impl Machine {
    /// The sizes of every part of the state are as the machine defines them.
    pub open spec fn wf(self) -> bool {
        &&& self.memory.len() == MEMORY_SIZE
        &&& self.v.len() == NUM_REGS
        &&& self.stack.len() <= STACK_LIMIT
        &&& self.display.len() == PIXELS
        &&& self.keys.len() == NUM_KEYS
    }

    /// The state with register `x` set to `val`.
    pub open spec fn set_v(self, x: int, val: u8) -> Machine {
        Machine { v: self.v.update(x, val), ..self }
    }

    /// The state with the program counter advanced past one instruction if `c` holds.
    pub open spec fn skip_if(self, c: bool) -> Machine {
        if c { Machine { pc: add16(self.pc, 2), ..self } } else { self }
    }

    /// `00EE`.
    pub open spec fn ret(self) -> Result<Machine, Chip8Error> {
        if self.stack.len() == 0 {
            Err(Chip8Error::StackUnderflow)
        } else {
            Ok(Machine { pc: self.stack.last(), stack: self.stack.drop_last(), ..self })
        }
    }

    /// `2nnn`.
    pub open spec fn call(self, nnn: u16) -> Result<Machine, Chip8Error> {
        if self.stack.len() >= STACK_LIMIT {
            Err(Chip8Error::StackOverflow)
        } else {
            Ok(Machine { pc: nnn, stack: self.stack.push(self.pc), ..self })
        }
    }

    /// `8xy4`: the carry is written first, then the wrapped sum.
    pub open spec fn add_reg(self, x: int, y: int) -> Machine {
        let sum = self.v[x] + self.v[y];
        self.set_v(FLAG as int, if sum > 255 { 1u8 } else { 0u8 }).set_v(x, (sum % 256) as u8)
    }

    /// `8xy5`: the no-borrow flag is written first, then `Vx - Vy`.
    pub open spec fn sub_reg(self, x: int, y: int) -> Machine {
        let m = self.set_v(FLAG as int, if self.v[x] >= self.v[y] { 1u8 } else { 0u8 });
        m.set_v(x, sub8(m.v[x], m.v[y]))
    }

    /// `8xy7`: the no-borrow flag is written first, then `Vy - Vx`.
    pub open spec fn sub_rev(self, x: int, y: int) -> Machine {
        let m = self.set_v(FLAG as int, if self.v[y] >= self.v[x] { 1u8 } else { 0u8 });
        m.set_v(x, sub8(m.v[y], m.v[x]))
    }

    /// The register that `8xy6` and `8xyE` shift.
    pub open spec fn shift_source(self, x: int, y: int) -> int {
        if self.quirks.shift_uses_vy { y } else { x }
    }

    /// `8xy6`: the low bit goes to `VF` first, then the shifted value to `Vx`.
    pub open spec fn shift_right(self, x: int, y: int) -> Machine {
        let s = self.shift_source(x, y);
        let m = self.set_v(FLAG as int, self.v[s] & 1u8);
        m.set_v(x, m.v[s] >> 1u8)
    }

    /// `8xyE`: the high bit goes to `VF` first, then the shifted value to `Vx`.
    pub open spec fn shift_left(self, x: int, y: int) -> Machine {
        let s = self.shift_source(x, y);
        let m = self.set_v(FLAG as int, (self.v[s] >> 7u8) & 1u8);
        m.set_v(x, ((m.v[s] * 2) % 256) as u8)
    }

    /// The target of `Bnnn`.
    pub open spec fn jump_target(self, nnn: u16) -> u16 {
        if self.quirks.jump_uses_vx {
            (nnn + self.v[(nnn / 256) as int]) as u16
        } else {
            (nnn + self.v[0]) as u16
        }
    }

    /// `Dxyn`, where the whole sprite lies in memory.
    pub open spec fn draw(self, x: int, y: int, n: u8) -> Machine {
        let ox = (self.v[x] % 64) as int;
        let oy = (self.v[y] % 32) as int;
        let display = Seq::new(
            PIXELS as nat,
            |p: int| self.display[p] != sprite_hits(self.memory, self.i, n, ox, oy, p),
        );
        let collided = exists |p: int|
            0 <= p < PIXELS && #[trigger] self.display[p] && sprite_hits(self.memory, self.i, n, ox, oy, p);
        Machine { display, ..self.set_v(FLAG as int, if collided { 1u8 } else { 0u8 }) }
    }

    /// Whether a sprite of `n` rows at the index register lies outside memory.
    pub open spec fn sprite_out_of_range(self, n: u8) -> bool {
        n > 0 && self.i + n > MEMORY_SIZE
    }

    /// Whether `len` bytes starting at the index register lie outside memory.
    pub open spec fn block_out_of_range(self, len: int) -> bool {
        self.i + len > MEMORY_SIZE
    }

    /// `Fx33`, where the three bytes lie in memory.
    pub open spec fn bcd(self, x: int) -> Machine {
        let val = self.v[x];
        let i = self.i as int;
        Machine {
            memory: self.memory.update(i, val / 100).update(i + 1, (val / 10) % 10).update(i + 2, val % 10),
            ..self
        }
    }

    /// `Fx55`, where the block lies in memory.
    pub open spec fn store_regs(self, x: int) -> Machine {
        let i = self.i as int;
        Machine {
            memory: Seq::new(
                self.memory.len(),
                |a: int| if i <= a <= i + x { self.v[a - i] } else { self.memory[a] },
            ),
            ..self
        }
    }

    /// `Fx65`, where the block lies in memory.
    pub open spec fn load_regs(self, x: int) -> Machine {
        let i = self.i as int;
        Machine {
            v: Seq::new(self.v.len(), |r: int| if r <= x { self.memory[i + r] } else { self.v[r] }),
            ..self
        }
    }

    /// Whether some key is pressed.
    pub open spec fn any_key(self) -> bool {
        exists |k: int| 0 <= k < NUM_KEYS && #[trigger] self.keys[k]
    }

    /// Whether `k` is the lowest pressed key.
    pub open spec fn is_first_key(self, k: int) -> bool {
        &&& 0 <= k < NUM_KEYS
        &&& self.keys[k]
        &&& forall |j: int| 0 <= j < k ==> !#[trigger] self.keys[j]
    }

    /// `Fx0A`: the lowest pressed key goes to `Vx`; with none pressed the
    /// instruction is repeated.
    pub open spec fn wait_key(self, x: int) -> Machine {
        if self.any_key() {
            let k = choose |k: int| self.is_first_key(k);
            self.set_v(x, k as u8)
        } else {
            Machine { pc: if self.pc >= 2 { (self.pc - 2) as u16 } else { 0u16 }, ..self }
        }
    }

    /// `Ex9E` and `ExA1`: skip when the state of key `Vx` equals `pressed`.
    pub open spec fn skip_key(self, x: int, pressed: bool) -> Result<Machine, Chip8Error> {
        let k = self.v[x];
        if k >= NUM_KEYS {
            Err(Chip8Error::KeyOutOfRange)
        } else {
            Ok(self.skip_if(self.keys[k as int] == pressed))
        }
    }

    /// The effect of executing `ins`, with `rnd` as the random byte `Cxnn` draws.
    pub open spec fn exec(self, ins: Instruction, rnd: u8) -> Result<Machine, Chip8Error> {
        match ins {
            Instruction::Clear => Ok(Machine { display: blank_display(), ..self }),
            Instruction::Return => self.ret(),
            Instruction::Jump { nnn } => Ok(Machine { pc: nnn, ..self }),
            Instruction::Call { nnn } => self.call(nnn),
            Instruction::SkipEqImm { x, nn } => Ok(self.skip_if(self.v[x as int] == nn)),
            Instruction::SkipNeImm { x, nn } => Ok(self.skip_if(self.v[x as int] != nn)),
            Instruction::SkipEqReg { x, y } => Ok(self.skip_if(self.v[x as int] == self.v[y as int])),
            Instruction::SkipNeReg { x, y } => Ok(self.skip_if(self.v[x as int] != self.v[y as int])),
            Instruction::LoadImm { x, nn } => Ok(self.set_v(x as int, nn)),
            Instruction::AddImm { x, nn } => Ok(self.set_v(x as int, add8(self.v[x as int], nn))),
            Instruction::Assign { x, y } => Ok(self.set_v(x as int, self.v[y as int])),
            Instruction::Or { x, y } => Ok(self.set_v(x as int, self.v[x as int] | self.v[y as int])),
            Instruction::And { x, y } => Ok(self.set_v(x as int, self.v[x as int] & self.v[y as int])),
            Instruction::Xor { x, y } => Ok(self.set_v(x as int, self.v[x as int] ^ self.v[y as int])),
            Instruction::AddReg { x, y } => Ok(self.add_reg(x as int, y as int)),
            Instruction::SubReg { x, y } => Ok(self.sub_reg(x as int, y as int)),
            Instruction::ShiftRight { x, y } => Ok(self.shift_right(x as int, y as int)),
            Instruction::SubRev { x, y } => Ok(self.sub_rev(x as int, y as int)),
            Instruction::ShiftLeft { x, y } => Ok(self.shift_left(x as int, y as int)),
            Instruction::SetIndex { nnn } => Ok(Machine { i: nnn, ..self }),
            Instruction::JumpOffset { nnn } => Ok(Machine { pc: self.jump_target(nnn), ..self }),
            Instruction::Random { x, nn } => Ok(self.set_v(x as int, rnd & nn)),
            Instruction::Draw { x, y, n } => {
                if self.sprite_out_of_range(n) {
                    Err(Chip8Error::AddressOutOfRange)
                } else {
                    Ok(self.draw(x as int, y as int, n))
                }
            },
            Instruction::SkipKey { x } => self.skip_key(x as int, true),
            Instruction::SkipNoKey { x } => self.skip_key(x as int, false),
            Instruction::GetDelay { x } => Ok(self.set_v(x as int, self.delay)),
            Instruction::WaitKey { x } => Ok(self.wait_key(x as int)),
            Instruction::SetDelay { x } => Ok(Machine { delay: self.v[x as int], ..self }),
            Instruction::SetSound { x } => Ok(Machine { sound: self.v[x as int], ..self }),
            Instruction::AddIndex { x } => Ok(Machine { i: add16(self.i, self.v[x as int] as u16), ..self }),
            Instruction::FontChar { x } => Ok(Machine { i: (self.v[x as int] * 5) as u16, ..self }),
            Instruction::Bcd { x } => {
                if self.block_out_of_range(3) {
                    Err(Chip8Error::AddressOutOfRange)
                } else {
                    Ok(self.bcd(x as int))
                }
            },
            Instruction::StoreRegs { x } => {
                if self.block_out_of_range(x + 1) {
                    Err(Chip8Error::AddressOutOfRange)
                } else {
                    Ok(self.store_regs(x as int))
                }
            },
            Instruction::LoadRegs { x } => {
                if self.block_out_of_range(x + 1) {
                    Err(Chip8Error::AddressOutOfRange)
                } else {
                    Ok(self.load_regs(x as int))
                }
            },
            Instruction::Unknown { .. } => Ok(self),
        }
    }

    /// Whether the next instruction lies outside memory.
    pub open spec fn fetch_out_of_range(self) -> bool {
        self.pc + 2 > MEMORY_SIZE
    }

    /// The state after an opcode is fetched: the program counter has moved past it.
    pub open spec fn fetched(self) -> Machine {
        Machine { pc: (self.pc + 2) as u16, ..self }
    }

    /// The opcode at the program counter, big-endian.
    pub open spec fn opcode_at_pc(self) -> u16 {
        (self.memory[self.pc as int] * 256 + self.memory[self.pc + 1]) as u16
    }

    /// The state after the timers count down once.
    pub open spec fn ticked(self) -> Machine {
        Machine {
            delay: if self.delay > 0 { (self.delay - 1) as u8 } else { 0u8 },
            sound: if self.sound > 0 { (self.sound - 1) as u8 } else { 0u8 },
            ..self
        }
    }
}

} // verus!

verus! {

/// The quirk settings of the reference behaviour: shifts act on `Vx`, `Bnnn` adds `V0`.
pub open spec fn reference_quirks() -> Quirks {
    Quirks { shift_uses_vy: false, jump_uses_vx: false }
}

/// A freshly constructed machine.
pub open spec fn initial_machine(quirks: Quirks) -> Machine {
    Machine {
        memory: initial_memory(),
        v: Seq::new(NUM_REGS as nat, |r: int| 0u8),
        i: 0,
        pc: PROGRAM_START as u16,
        stack: Seq::empty(),
        delay: 0,
        sound: 0,
        display: blank_display(),
        keys: Seq::new(NUM_KEYS as nat, |k: int| false),
        quirks,
    }
}

/// The state reached by an operation that returned `r`, as a `Result` over states.
pub open spec fn outcome<T>(r: Result<T, Chip8Error>, after: Machine) -> Result<Machine, Chip8Error> {
    match r {
        Ok(_) => Ok(after),
        Err(e) => Err(e),
    }
}

impl Machine {
    /// The state with `rom` copied to memory from the load address on.
    pub open spec fn loaded(self, rom: Seq<u8>) -> Machine {
        Machine {
            memory: Seq::new(
                self.memory.len(),
                |a: int|
                    if PROGRAM_START <= a < PROGRAM_START + rom.len() {
                        rom[a - PROGRAM_START]
                    } else {
                        self.memory[a]
                    },
            ),
            ..self
        }
    }
}

} // verus!
