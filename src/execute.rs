//! Dispatch of decoded instructions to their handlers, and the
//! fetch-decode-execute step.

use vstd::prelude::*;
use crate::instruction::{decode, decode_spec, operands_valid, Instruction};
use crate::machine::Chip8;
use crate::model::{outcome, Chip8Error, Machine, MEMORY_SIZE};

verus! {

impl Chip8 {
    /// Executes `ins`, with `rnd` as the byte that `Cxnn` draws. On an error
    /// nothing changes.
    pub fn execute_with(&mut self, ins: Instruction, rnd: u8) -> (r: Result<(), Chip8Error>)
        requires
            old(self)@.wf(),
            operands_valid(ins),
        ensures
            final(self)@.wf(),
            outcome(r, final(self)@) == old(self)@.exec(ins, rnd),
            r is Err ==> final(self)@ == old(self)@,
    {
        match ins {
            Instruction::Clear => {
                self.op_00e0();
                Ok(())
            },
            Instruction::Return => self.op_00ee(),
            Instruction::Jump { nnn } => {
                self.op_1nnn(nnn);
                Ok(())
            },
            Instruction::Call { nnn } => self.op_2nnn(nnn),
            Instruction::SkipEqImm { x, nn } => {
                self.op_3xnn(x, nn);
                Ok(())
            },
            Instruction::SkipNeImm { x, nn } => {
                self.op_4xnn(x, nn);
                Ok(())
            },
            Instruction::SkipEqReg { x, y } => {
                self.op_5xy0(x, y);
                Ok(())
            },
            Instruction::SkipNeReg { x, y } => {
                self.op_9xy0(x, y);
                Ok(())
            },
            Instruction::LoadImm { x, nn } => {
                self.op_6xnn(x, nn);
                Ok(())
            },
            Instruction::AddImm { x, nn } => {
                self.op_7xnn(x, nn);
                Ok(())
            },
            Instruction::Assign { x, y } => {
                self.op_8xy0(x, y);
                Ok(())
            },
            Instruction::Or { x, y } => {
                self.op_8xy1(x, y);
                Ok(())
            },
            Instruction::And { x, y } => {
                self.op_8xy2(x, y);
                Ok(())
            },
            Instruction::Xor { x, y } => {
                self.op_8xy3(x, y);
                Ok(())
            },
            Instruction::AddReg { x, y } => {
                self.op_8xy4(x, y);
                Ok(())
            },
            Instruction::SubReg { x, y } => {
                self.op_8xy5(x, y);
                Ok(())
            },
            Instruction::ShiftRight { x, y } => {
                self.op_8xy6(x, y);
                Ok(())
            },
            Instruction::SubRev { x, y } => {
                self.op_8xy7(x, y);
                Ok(())
            },
            Instruction::ShiftLeft { x, y } => {
                self.op_8xye(x, y);
                Ok(())
            },
            Instruction::SetIndex { nnn } => {
                self.op_annn(nnn);
                Ok(())
            },
            Instruction::JumpOffset { nnn } => {
                self.op_bnnn(nnn);
                Ok(())
            },
            Instruction::Random { x, nn } => {
                self.op_cxnn_with(x, nn, rnd);
                Ok(())
            },
            Instruction::Draw { x, y, n } => self.op_dxyn(x, y, n),
            Instruction::SkipKey { x } => self.op_ex9e(x),
            Instruction::SkipNoKey { x } => self.op_exa1(x),
            Instruction::GetDelay { x } => {
                self.op_fx07(x);
                Ok(())
            },
            Instruction::WaitKey { x } => {
                self.op_fx0a(x);
                Ok(())
            },
            Instruction::SetDelay { x } => {
                self.op_fx15(x);
                Ok(())
            },
            Instruction::SetSound { x } => {
                self.op_fx18(x);
                Ok(())
            },
            Instruction::AddIndex { x } => {
                self.op_fx1e(x);
                Ok(())
            },
            Instruction::FontChar { x } => {
                self.op_fx29(x);
                Ok(())
            },
            Instruction::Bcd { x } => self.op_fx33(x),
            Instruction::StoreRegs { x } => self.op_fx55(x),
            Instruction::LoadRegs { x } => self.op_fx65(x),
            Instruction::Unknown { .. } => Ok(()),
        }
    }

    /// Decodes and executes one opcode. An unknown opcode changes nothing. On
    /// an error nothing changes.
    pub fn execute(&mut self, opcode: u16) -> (r: Result<(), Chip8Error>)
        requires
            old(self)@.wf(),
        ensures
            final(self)@.wf(),
            exists |rnd: u8| outcome(r, final(self)@) == #[trigger] old(self)@.exec(decode_spec(opcode), rnd),
            r is Err ==> final(self)@ == old(self)@,
    {
        let ins = decode(opcode);
        let ghost before = self@;
        match ins {
            Instruction::Random { x, nn } => {
                self.op_cxnn(x, nn);
                proof {
                    let w = choose |rnd: u8| self@ == before.set_v(x as int, rnd & nn);
                    assert(outcome(Ok::<(), Chip8Error>(()), self@) == before.exec(ins, w));
                }
                Ok(())
            },
            _ => {
                let r = self.execute_with(ins, 0);
                proof {
                    assert(outcome(r, self@) == before.exec(ins, 0));
                }
                r
            },
        }
    }

    /// Fetches the opcode at the program counter and executes it, returning the
    /// instruction it decoded to. On an error in the fetch nothing changes; on an
    /// error in the execution only the program counter has advanced.
    pub fn step(&mut self) -> (r: Result<Instruction, Chip8Error>)
        requires
            old(self)@.wf(),
        ensures
            final(self)@.wf(),
            old(self)@.fetch_out_of_range() ==> r == Err::<Instruction, Chip8Error>(Chip8Error::AddressOutOfRange)
                && final(self)@ == old(self)@,
            r matches Ok(ins) ==> ins == decode_spec(old(self)@.opcode_at_pc()),
            !old(self)@.fetch_out_of_range() ==> exists |rnd: u8| outcome(r, final(self)@) == #[trigger] old(
                self,
            )@.fetched().exec(decode_spec(old(self)@.opcode_at_pc()), rnd),
    {
        let opcode = self.fetch()?;
        let ghost mid = self@;
        let r = self.execute(opcode);
        match r {
            Ok(()) => {
                let ins = decode(opcode);
                proof {
                    let w = choose |rnd: u8| outcome(r, self@) == #[trigger] mid.exec(decode_spec(opcode), rnd);
                    assert(outcome(Ok::<Instruction, Chip8Error>(ins), self@) == mid.exec(decode_spec(opcode), w));
                }
                Ok(ins)
            },
            Err(e) => {
                proof {
                    let w = choose |rnd: u8| outcome(r, self@) == #[trigger] mid.exec(decode_spec(opcode), rnd);
                    assert(outcome(Err::<Instruction, Chip8Error>(e), self@) == mid.exec(decode_spec(opcode), w));
                }
                Err(e)
            },
        }
    }

    /// Runs up to `budget` instructions, stopping early where the program
    /// counter reaches the last two bytes of memory. Returns the unknown opcodes
    /// met on the way, in order, or the first error.
    pub fn run_frame(&mut self, budget: usize) -> (r: Result<Vec<u16>, Chip8Error>)
        requires
            old(self)@.wf(),
        ensures
            final(self)@.wf(),
            exists |rnds: Seq<u8>| rnds.len() == budget && #[trigger] run_spec(old(self)@, budget as nat, rnds) == (
                match r {
                    Ok(unknown) => Ok((final(self)@, unknown@)),
                    Err(e) => Err(e),
                }),
    {
        let ghost start = self@;
        let ghost done: Seq<u8> = Seq::empty();
        let mut unknown: Vec<u16> = Vec::new();
        let mut k: usize = 0;
        proof {
            assert forall |rs: Seq<u8>| #[trigger] run_spec(start, budget as nat, done + rs)
                == prefixed(unknown@, run_spec(self@, budget as nat, rs)) by {
                assert(done + rs =~= rs);
                assert(unknown@ + seq![] =~= seq![]);
                match run_spec(self@, budget as nat, rs) {
                    Ok((m, u)) => {
                        assert(unknown@ + u =~= u);
                    },
                    Err(_) => {},
                }
            }
        }
        while k < budget
            invariant
                self@.wf(),
                start == old(self)@,
                k <= budget,
                done.len() == k,
                forall |rs: Seq<u8>| #[trigger] run_spec(start, budget as nat, done + rs)
                    == prefixed(unknown@, run_spec(self@, (budget - k) as nat, rs)),
            decreases budget - k,
        {
            if self.pc() as usize >= MEMORY_SIZE - 2 {
                proof {
                    let rs = Seq::new((budget - k) as nat, |j: int| 0u8);
                    assert(run_spec(self@, (budget - k) as nat, rs) == Ok::<(Machine, Seq<u16>), Chip8Error>((self@, seq![])));
                    assert(unknown@ + seq![] =~= unknown@);
                    let wit = done + rs;
                    assert(wit.len() == budget);
                    assert(run_spec(start, budget as nat, wit) == Ok::<(Machine, Seq<u16>), Chip8Error>((self@, unknown@)));
                }
                return Ok(unknown);
            }
            let ghost before = self@;
            let ghost u0 = unknown@;
            let res = self.step();
            let ghost w = choose |rnd: u8| outcome(res, self@) == #[trigger] before.fetched().exec(
                decode_spec(before.opcode_at_pc()), rnd);
            proof {
                assert forall |rs: Seq<u8>| #[trigger] run_spec(before, (budget - k) as nat, seq![w] + rs)
                    == (match before.fetched().exec(decode_spec(before.opcode_at_pc()), w) {
                        Err(e) => Err(e),
                        Ok(m1) => prefixed(
                            unknown_of(decode_spec(before.opcode_at_pc())),
                            run_spec(m1, (budget - k - 1) as nat, rs),
                        ),
                    }) by {
                    assert((seq![w] + rs).drop_first() =~= rs);
                    assert((seq![w] + rs)[0] == w);
                }
            }
            match res {
                Err(e) => {
                    proof {
                        let rs = Seq::new((budget - k - 1) as nat, |j: int| 0u8);
                        let wit = done + (seq![w] + rs);
                        assert(wit.len() == budget);
                        assert(run_spec(start, budget as nat, wit) == Err::<(Machine, Seq<u16>), Chip8Error>(e));
                    }
                    return Err(e);
                },
                Ok(ins) => {
                    match ins {
                        Instruction::Unknown { opcode } => unknown.push(opcode),
                        _ => {},
                    }
                    proof {
                        assert(unknown@ =~= u0 + unknown_of(ins));
                        assert forall |rs: Seq<u8>| #[trigger] run_spec(start, budget as nat, (done + seq![w]) + rs)
                            == prefixed(unknown@, run_spec(self@, (budget - (k + 1)) as nat, rs)) by {
                            assert((done + seq![w]) + rs =~= done + (seq![w] + rs));
                            match run_spec(self@, (budget - (k + 1)) as nat, rs) {
                                Ok((m, u)) => {
                                    assert(u0 + (unknown_of(ins) + u) =~= (u0 + unknown_of(ins)) + u);
                                },
                                Err(_) => {},
                            }
                        }
                        done = done + seq![w];
                    }
                },
            }
            k = k + 1;
        }
        proof {
            let rs = Seq::<u8>::empty();
            assert(done + rs =~= done);
            assert(unknown@ + seq![] =~= unknown@);
            assert(run_spec(start, budget as nat, done + rs) == prefixed(unknown@, run_spec(self@, 0, rs)));
            assert(run_spec(start, budget as nat, done) == Ok::<(Machine, Seq<u16>), Chip8Error>((self@, unknown@)));
        }
        Ok(unknown)
    }
}

/// The unknown opcode that an instruction stands for, if it is one.
pub open spec fn unknown_of(ins: Instruction) -> Seq<u16> {
    match ins {
        Instruction::Unknown { opcode } => seq![opcode],
        _ => seq![],
    }
}

/// `r` with `u` put in front of its list of unknown opcodes.
pub open spec fn prefixed(u: Seq<u16>, r: Result<(Machine, Seq<u16>), Chip8Error>) -> Result<(Machine, Seq<u16>), Chip8Error> {
    match r {
        Ok((m, rest)) => Ok((m, u + rest)),
        Err(e) => Err(e),
    }
}

/// Running up to `budget` instructions from `m`, the `k`-th drawing `rnds[k]`
/// where it is a `Cxnn`: the final state and the unknown opcodes met, in order,
/// or the first error. Running stops early at the last two bytes of memory.
pub open spec fn run_spec(m: Machine, budget: nat, rnds: Seq<u8>) -> Result<(Machine, Seq<u16>), Chip8Error>
    decreases budget,
{
    if budget == 0 || m.pc >= MEMORY_SIZE - 2 {
        Ok((m, seq![]))
    } else {
        let ins = decode_spec(m.opcode_at_pc());
        match m.fetched().exec(ins, rnds[0]) {
            Err(e) => Err(e),
            Ok(m1) => prefixed(unknown_of(ins), run_spec(m1, (budget - 1) as nat, rnds.drop_first())),
        }
    }
}

} // verus!
