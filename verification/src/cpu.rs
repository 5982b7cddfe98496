//! The executable 8085.
//!
//! [`PP8085`] owns the register file, the flag byte, the memory and the
//! I/O latches.  Its view is the abstract [`CpuState`], and every
//! instruction handler proves that it changes the machine exactly as
//! [`spec_step`]'s per-opcode semantics say.  Faults (an access past the
//! configured memory size, an undefined opcode) surface as
//! [`EmuError`] results; past a fault the machine's state is not
//! specified further.

use vstd::prelude::*;

use crate::flags::{find_parity, set_mask, spec_set_mask};
use crate::flags::{MASK_AC, MASK_CY, MASK_OV, MASK_P, MASK_S, MASK_Z};
use crate::flags::{even_parity, flag_ac, flag_cy, flag_ov, flag_p, flag_s, flag_z};
use crate::ioport::{
    lemma_ports_map_absent, lemma_ports_map_index, lemma_ports_map_push, lemma_ports_map_remove,
    lemma_ports_map_update, ports_map, ports_unique, IoPort,
};
use crate::hex::{chars_to_string, push_hex2, push_hex4, push_str, render_hex2, render_hex4};
use crate::memory::Memory;
use crate::model::{
    cond_holds, get_pair, get_reg, hi8, lo8, set_pair, set_reg, set_stack_pair, stack_hi, stack_lo,
    word, wrap_dec16, wrap_inc16, Cond, CpuState, EmuError, Reg, RegPair, StackPair,
};
use crate::model::{spec_fetch8, spec_fetch16, spec_pop, spec_push, spec_read_io, spec_read_mem,
    spec_write_io, spec_write_mem};
use crate::model::{
    alu_add, alu_ana, alu_apply, alu_ora, alu_sub, alu_xra, cmp_flags, code_of_reg, cond_of_code,
    daa_core, dad_core, dcr_core, flags_szp, inr_core, pair_of_code, ral_core, rar_core,
    reg_of_code, rlc_core, rrc_core, stack_pair_of_code, step_outcome, undefined_opcode, StepOk,
};
use crate::model::{
    lemma_fault_stays, lemma_halted_stays, lemma_run_n_extend, spec_alu_imm, spec_alu_op, spec_call, spec_dad,
    spec_dcr, spec_exec_high, spec_exec_low, spec_exec_op, spec_in, spec_inr, spec_inx_dcx,
    spec_jump, spec_lda, spec_ldax, spec_lhld, spec_lxi, spec_mov, spec_mvi, spec_out, spec_pop_op,
    spec_shld,
    spec_push_op, spec_ret, spec_rst, spec_run_n, spec_sta, spec_stax, spec_step, spec_xthl,
};

verus! {

/// The CPU: registers, flags, program counter, stack pointer, the
/// instruction register, a pending-cycle counter for pacing, the
/// interrupt-enable and halt latches, and the attached memory and
/// I/O ports.
pub struct PP8085 {
    ir: u8,
    a: u8,
    f: u8,
    b: u8,
    c: u8,
    d: u8,
    e: u8,
    h: u8,
    l: u8,
    pc: u16,
    sp: u16,
    memory: Memory,
    io_ports: Vec<IoPort>,
    cycles: u32,
    ie: bool,
    hlt: bool,
}

/// The number of model instruction steps within which a halting
/// program is guaranteed to finish: [`PP8085::run`] owes success to
/// any program whose straight-line execution reaches HLT within this
/// many instructions.  The run loop's tick budget of 2^64 - 1
/// dominates it, since one instruction costs at most 255 pacing
/// ticks.
pub const RUN_HALT_BOUND: u64 = 0x10000000000;

/// The state a freshly constructed or reset CPU with memory of
/// `mem_size` zeroed bytes is in: everything zero, not halted.
pub open spec fn zeroed_state(mem: Seq<u8>, ports: Map<u8, u8>, ie: bool) -> CpuState {
    CpuState {
        ir: 0,
        a: 0,
        f: 0,
        b: 0,
        c: 0,
        d: 0,
        e: 0,
        h: 0,
        l: 0,
        pc: 0,
        sp: 0,
        mem: mem,
        ports: ports,
        ie: ie,
        hlt: false,
    }
}

/// The register display: one `name : value` pair per register, hex
/// throughout, with PC and SP in full width.
pub open spec fn spec_summary(s: CpuState) -> Seq<char> {
    "a : "@ + render_hex2(s.a as int) + "\tf : "@ + render_hex2(s.f as int) + "\nb : "@
        + render_hex2(s.b as int) + "\tc : "@ + render_hex2(s.c as int) + "\nd : "@ + render_hex2(
        s.d as int,
    ) + "\te : "@ + render_hex2(s.e as int) + "\nh : "@ + render_hex2(s.h as int) + "\tl : "@
        + render_hex2(s.l as int) + "\npc: "@ + render_hex4(s.pc as int) + "\tsp: "@ + render_hex4(
        s.sp as int,
    ) + "\n"@
}

impl View for PP8085 {
    type V = CpuState;

    closed spec fn view(&self) -> CpuState {
        CpuState {
            ir: self.ir,
            a: self.a,
            f: self.f,
            b: self.b,
            c: self.c,
            d: self.d,
            e: self.e,
            h: self.h,
            l: self.l,
            pc: self.pc,
            sp: self.sp,
            mem: self.memory@,
            ports: ports_map(self.io_ports@),
            ie: self.ie,
            hlt: self.hlt,
        }
    }
}

impl PP8085 {
    /// Well-formed: the memory matches its configured size and no two
    /// I/O latches share an address.
    pub closed spec fn wf(&self) -> bool {
        self.memory.wf() && ports_unique(self.io_ports@)
    }

    /// The pending-cycle counter used by [`PP8085::run`] for pacing.
    pub closed spec fn spec_cycles(&self) -> u32 {
        self.cycles
    }

    /// Creates a CPU with every register zero and 8192 bytes of zeroed
    /// memory.
    pub fn new() -> (r: PP8085)
        ensures
            r.wf(),
            r@ =~= zeroed_state(Seq::new(8192, |i: int| 0u8), Map::empty(), false),
            r.spec_cycles() == 0,
    {
        let r = PP8085 {
            ir: 0,
            a: 0,
            f: 0,
            b: 0,
            c: 0,
            d: 0,
            e: 0,
            h: 0,
            l: 0,
            pc: 0,
            sp: 0,
            memory: Memory::new(8192),
            io_ports: Vec::new(),
            cycles: 0,
            ie: false,
            hlt: false,
        };
        r
    }

    /// The accumulator.
    pub fn get_a(&self) -> (r: u8)
        ensures
            r == self@.a,
    {
        self.a
    }

    /// The flag byte.
    pub fn get_f(&self) -> (r: u8)
        ensures
            r == self@.f,
    {
        self.f
    }

    /// Register B.
    pub fn get_b(&self) -> (r: u8)
        ensures
            r == self@.b,
    {
        self.b
    }

    /// Register C.
    pub fn get_c(&self) -> (r: u8)
        ensures
            r == self@.c,
    {
        self.c
    }

    /// Register D.
    pub fn get_d(&self) -> (r: u8)
        ensures
            r == self@.d,
    {
        self.d
    }

    /// Register E.
    pub fn get_e(&self) -> (r: u8)
        ensures
            r == self@.e,
    {
        self.e
    }

    /// Register H.
    pub fn get_h(&self) -> (r: u8)
        ensures
            r == self@.h,
    {
        self.h
    }

    /// Register L.
    pub fn get_l(&self) -> (r: u8)
        ensures
            r == self@.l,
    {
        self.l
    }

    /// The stack pointer.
    pub fn get_sp(&self) -> (r: u16)
        ensures
            r == self@.sp,
    {
        self.sp
    }

    /// The program counter.
    pub fn get_pc(&self) -> (r: u16)
        ensures
            r == self@.pc,
    {
        self.pc
    }

    /// The instruction register: the most recently fetched opcode.
    pub fn get_ir(&self) -> (r: u8)
        ensures
            r == self@.ir,
    {
        self.ir
    }

    /// Whether the halt latch is set.
    pub fn get_hlt(&self) -> (r: bool)
        ensures
            r == self@.hlt,
    {
        self.hlt
    }

    /// Sets the accumulator.
    pub fn set_a(&mut self, v: u8)
        requires
            old(self).wf(),
        ensures
            final(self).wf(),
            final(self)@ == (CpuState { a: v, ..old(self)@ }),
    {
        self.a = v;
    }

    /// Sets the flag byte.
    pub fn set_f(&mut self, v: u8)
        requires
            old(self).wf(),
        ensures
            final(self).wf(),
            final(self)@ == (CpuState { f: v, ..old(self)@ }),
    {
        self.f = v;
    }

    /// Sets register B.
    pub fn set_b(&mut self, v: u8)
        requires
            old(self).wf(),
        ensures
            final(self).wf(),
            final(self)@ == (CpuState { b: v, ..old(self)@ }),
    {
        self.b = v;
    }

    /// Sets register C.
    pub fn set_c(&mut self, v: u8)
        requires
            old(self).wf(),
        ensures
            final(self).wf(),
            final(self)@ == (CpuState { c: v, ..old(self)@ }),
    {
        self.c = v;
    }

    /// Sets register D.
    pub fn set_d(&mut self, v: u8)
        requires
            old(self).wf(),
        ensures
            final(self).wf(),
            final(self)@ == (CpuState { d: v, ..old(self)@ }),
    {
        self.d = v;
    }

    /// Sets register E.
    pub fn set_e(&mut self, v: u8)
        requires
            old(self).wf(),
        ensures
            final(self).wf(),
            final(self)@ == (CpuState { e: v, ..old(self)@ }),
    {
        self.e = v;
    }

    /// Sets register H.
    pub fn set_h(&mut self, v: u8)
        requires
            old(self).wf(),
        ensures
            final(self).wf(),
            final(self)@ == (CpuState { h: v, ..old(self)@ }),
    {
        self.h = v;
    }

    /// Sets register L.
    pub fn set_l(&mut self, v: u8)
        requires
            old(self).wf(),
        ensures
            final(self).wf(),
            final(self)@ == (CpuState { l: v, ..old(self)@ }),
    {
        self.l = v;
    }

    /// Sets the stack pointer.
    pub fn set_sp(&mut self, v: u16)
        requires
            old(self).wf(),
        ensures
            final(self).wf(),
            final(self)@ == (CpuState { sp: v, ..old(self)@ }),
    {
        self.sp = v;
    }

    /// Sets the program counter.
    pub fn set_pc(&mut self, v: u16)
        requires
            old(self).wf(),
        ensures
            final(self).wf(),
            final(self)@ == (CpuState { pc: v, ..old(self)@ }),
    {
        self.pc = v;
    }

    /// The parity of `x`: true exactly when `x` has an even number of
    /// set bits.
    pub fn find_parity(x: u8) -> (r: bool)
        ensures
            r == even_parity(x),
    {
        find_parity(x)
    }

    /// Forces the sign flag.
    pub fn set_sign(&mut self, v: bool)
        requires
            old(self).wf(),
        ensures
            final(self).wf(),
            final(self)@ == (CpuState { f: spec_set_mask(old(self)@.f, MASK_S, v), ..old(self)@ }),
    {
        self.f = set_mask(self.f, MASK_S, v);
    }

    /// The sign flag.
    pub fn get_sign(&self) -> (r: bool)
        ensures
            r == flag_s(self@.f),
    {
        self.f & MASK_S != 0
    }

    /// Forces the zero flag.
    pub fn set_zero(&mut self, v: bool)
        requires
            old(self).wf(),
        ensures
            final(self).wf(),
            final(self)@ == (CpuState { f: spec_set_mask(old(self)@.f, MASK_Z, v), ..old(self)@ }),
    {
        self.f = set_mask(self.f, MASK_Z, v);
    }

    /// The zero flag.
    pub fn get_zero(&self) -> (r: bool)
        ensures
            r == flag_z(self@.f),
    {
        self.f & MASK_Z != 0
    }

    /// Forces both overflow witnesses, bits 5 and 1 together.
    pub fn set_overflow(&mut self, v: bool)
        requires
            old(self).wf(),
        ensures
            final(self).wf(),
            final(self)@ == (CpuState { f: spec_set_mask(old(self)@.f, MASK_OV, v), ..old(self)@ }),
    {
        self.f = set_mask(self.f, MASK_OV, v);
    }

    /// The overflow witness, read from bit 5.
    pub fn get_overflow(&self) -> (r: bool)
        ensures
            r == flag_ov(self@.f),
    {
        self.f & 0x20 != 0
    }

    /// Forces the auxiliary carry flag.
    pub fn set_auxiliary_carry(&mut self, v: bool)
        requires
            old(self).wf(),
        ensures
            final(self).wf(),
            final(self)@ == (CpuState { f: spec_set_mask(old(self)@.f, MASK_AC, v), ..old(self)@ }),
    {
        self.f = set_mask(self.f, MASK_AC, v);
    }

    /// The auxiliary carry flag.
    pub fn get_auxiliary_carry(&self) -> (r: bool)
        ensures
            r == flag_ac(self@.f),
    {
        self.f & MASK_AC != 0
    }

    /// Forces the parity flag.
    pub fn set_parity(&mut self, v: bool)
        requires
            old(self).wf(),
        ensures
            final(self).wf(),
            final(self)@ == (CpuState { f: spec_set_mask(old(self)@.f, MASK_P, v), ..old(self)@ }),
    {
        self.f = set_mask(self.f, MASK_P, v);
    }

    /// The parity flag.
    pub fn get_parity(&self) -> (r: bool)
        ensures
            r == flag_p(self@.f),
    {
        self.f & MASK_P != 0
    }

    /// Forces the carry flag.
    pub fn set_carry(&mut self, v: bool)
        requires
            old(self).wf(),
        ensures
            final(self).wf(),
            final(self)@ == (CpuState { f: spec_set_mask(old(self)@.f, MASK_CY, v), ..old(self)@ }),
    {
        self.f = set_mask(self.f, MASK_CY, v);
    }

    /// The carry flag.
    pub fn get_carry(&self) -> (r: bool)
        ensures
            r == flag_cy(self@.f),
    {
        self.f & MASK_CY != 0
    }

    /// The address in the HL pair.
    pub fn get_addr_hl(&self) -> (r: u16)
        ensures
            r == word(self@.h, self@.l),
    {
        ((self.h as u16) << 8) | (self.l as u16)
    }

    /// The address in the BC pair.
    pub fn get_addr_bc(&self) -> (r: u16)
        ensures
            r == word(self@.b, self@.c),
    {
        ((self.b as u16) << 8) | (self.c as u16)
    }

    /// The address in the DE pair.
    pub fn get_addr_de(&self) -> (r: u16)
        ensures
            r == word(self@.d, self@.e),
    {
        ((self.d as u16) << 8) | (self.e as u16)
    }

    /// Installs `data` as the CPU's memory.
    pub fn load_memory(&mut self, data: Memory)
        requires
            old(self).wf(),
            data.wf(),
        ensures
            final(self).wf(),
            final(self)@ == (CpuState { mem: data@, ..old(self)@ }),
    {
        self.memory = data;
    }

    /// Zeros every register, the flags, PC, SP, IR and the pending
    /// cycles, and clears the halt latch; memory, I/O ports and the
    /// interrupt-enable latch are preserved.
    pub fn reset(&mut self)
        requires
            old(self).wf(),
        ensures
            final(self).wf(),
            final(self)@ == zeroed_state(old(self)@.mem, old(self)@.ports, old(self)@.ie),
            final(self).spec_cycles() == 0,
    {
        self.a = 0;
        self.b = 0;
        self.c = 0;
        self.d = 0;
        self.e = 0;
        self.h = 0;
        self.l = 0;
        self.sp = 0;
        self.pc = 0;
        self.f = 0;
        self.ir = 0;
        self.hlt = false;
        self.cycles = 0;
    }

    /// Formats every register and the two pointers for human display.
    pub fn get_summary(&self) -> (r: String)
        ensures
            r@ == spec_summary(self@),
    {
        let mut out: Vec<char> = Vec::new();
        push_str(&mut out, "a : ");
        push_hex2(&mut out, self.a);
        push_str(&mut out, "\tf : ");
        push_hex2(&mut out, self.f);
        push_str(&mut out, "\nb : ");
        push_hex2(&mut out, self.b);
        push_str(&mut out, "\tc : ");
        push_hex2(&mut out, self.c);
        push_str(&mut out, "\nd : ");
        push_hex2(&mut out, self.d);
        push_str(&mut out, "\te : ");
        push_hex2(&mut out, self.e);
        push_str(&mut out, "\nh : ");
        push_hex2(&mut out, self.h);
        push_str(&mut out, "\tl : ");
        push_hex2(&mut out, self.l);
        push_str(&mut out, "\npc: ");
        push_hex4(&mut out, self.pc);
        push_str(&mut out, "\tsp: ");
        push_hex4(&mut out, self.sp);
        push_str(&mut out, "\n");
        proof {
            assert(out@ =~= spec_summary(self@));
        }
        chars_to_string(&out)
    }

    /// Reads memory at `addr`, faulting on an out-of-range address.
    pub fn read_memory(&self, addr: u16) -> (r: Result<u8, EmuError>)
        requires
            self.wf(),
        ensures
            r == spec_read_mem(self@, addr),
    {
        if addr < self.memory.size() {
            Ok(self.memory.read(addr))
        } else {
            Err(EmuError::MemoryOutOfRange(addr))
        }
    }

    /// Writes memory at `addr`, faulting on an out-of-range address.
    pub fn write_memory(&mut self, addr: u16, content: u8) -> (r: Result<(), EmuError>)
        requires
            old(self).wf(),
        ensures
            final(self).wf(),
            match spec_write_mem(old(self)@, addr, content) {
                Ok(s2) => r == Ok::<(), EmuError>(()) && final(self)@ == s2,
                Err(e) => r == Err::<(), EmuError>(e) && final(self)@ == old(self)@,
            },
    {
        if addr < self.memory.size() {
            self.memory.write(addr, content);
            Ok(())
        } else {
            Err(EmuError::MemoryOutOfRange(addr))
        }
    }

    /// Creates a zero-initialized latch at `addr`, replacing any latch
    /// already there.
    pub fn add_io_port(&mut self, addr: u8)
        requires
            old(self).wf(),
        ensures
            final(self).wf(),
            final(self)@ == (CpuState { ports: old(self)@.ports.insert(addr, 0), ..old(self)@ }),
    {
        let n = self.io_ports.len();
        let mut i: usize = 0;
        while i < n
            invariant
                self == old(self),
                self.wf(),
                n == self.io_ports@.len(),
                i <= n,
                forall|j: int| 0 <= j < i ==> self.io_ports@[j].addr != addr,
            decreases n - i,
        {
            if self.io_ports[i].get_addr() == addr {
                self.io_ports.set(i, IoPort::new(addr));
                proof {
                    lemma_ports_map_update(
                        old(self).io_ports@,
                        i as int,
                        IoPort { addr, data: 0 },
                    );
                    assert(self@ =~= (CpuState {
                        ports: old(self)@.ports.insert(addr, 0),
                        ..old(self)@
                    }));
                }
                return ;
            }
            i = i + 1;
        }
        self.io_ports.push(IoPort::new(addr));
        proof {
            lemma_ports_map_push(old(self).io_ports@, IoPort { addr, data: 0 });
            assert(self@ =~= (CpuState { ports: old(self)@.ports.insert(addr, 0), ..old(self)@ }));
        }
    }

    /// Deletes the latch at `addr`; reads there yield 0 afterwards and
    /// writes are dropped.
    pub fn remove_io_port(&mut self, addr: u8)
        requires
            old(self).wf(),
        ensures
            final(self).wf(),
            final(self)@ == (CpuState { ports: old(self)@.ports.remove(addr), ..old(self)@ }),
    {
        let n = self.io_ports.len();
        let mut i: usize = 0;
        while i < n
            invariant
                self == old(self),
                self.wf(),
                n == self.io_ports@.len(),
                i <= n,
                forall|j: int| 0 <= j < i ==> self.io_ports@[j].addr != addr,
            decreases n - i,
        {
            if self.io_ports[i].get_addr() == addr {
                proof {
                    lemma_ports_map_remove(old(self).io_ports@, i as int);
                    old(self).io_ports@.remove_ensures(i as int);
                }
                self.io_ports.remove(i);
                proof {
                    assert(ports_unique(self.io_ports@)) by {
                        assert forall|x: int, y: int|
                            0 <= x < y < self.io_ports@.len() implies self.io_ports@[x].addr
                            != self.io_ports@[y].addr by {
                            let ox: int = if x < i { x } else { x + 1 };
                            let oy: int = if y < i { y } else { y + 1 };
                            assert(self.io_ports@[x] == old(self).io_ports@[ox]);
                            assert(self.io_ports@[y] == old(self).io_ports@[oy]);
                        }
                    }
                    assert(self@ =~= (CpuState {
                        ports: old(self)@.ports.remove(addr),
                        ..old(self)@
                    }));
                }
                return ;
            }
            i = i + 1;
        }
        proof {
            lemma_ports_map_absent(self.io_ports@, addr);
            assert(old(self)@.ports.remove(addr) =~= old(self)@.ports);
            assert(self@ =~= (CpuState { ports: old(self)@.ports.remove(addr), ..old(self)@ }));
        }
    }

    /// The latch at `addr`, or 0 when no port is mapped there.
    pub fn read_io(&self, addr: u8) -> (r: u8)
        requires
            self.wf(),
        ensures
            r == spec_read_io(self@, addr),
    {
        let n = self.io_ports.len();
        let mut i: usize = 0;
        while i < n
            invariant
                self.wf(),
                n == self.io_ports@.len(),
                i <= n,
                forall|j: int| 0 <= j < i ==> self.io_ports@[j].addr != addr,
            decreases n - i,
        {
            if self.io_ports[i].get_addr() == addr {
                proof {
                    lemma_ports_map_index(self.io_ports@, i as int);
                }
                return self.io_ports[i].read();
            }
            i = i + 1;
        }
        proof {
            lemma_ports_map_absent(self.io_ports@, addr);
        }
        0
    }

    /// Latches `data` at `addr`; a write to an unmapped port is
    /// silently dropped.
    pub fn write_io(&mut self, addr: u8, data: u8)
        requires
            old(self).wf(),
        ensures
            final(self).wf(),
            final(self)@ == spec_write_io(old(self)@, addr, data),
    {
        let n = self.io_ports.len();
        let mut i: usize = 0;
        while i < n
            invariant
                self == old(self),
                self.wf(),
                n == self.io_ports@.len(),
                i <= n,
                forall|j: int| 0 <= j < i ==> self.io_ports@[j].addr != addr,
            decreases n - i,
        {
            if self.io_ports[i].get_addr() == addr {
                proof {
                    lemma_ports_map_index(self.io_ports@, i as int);
                    lemma_ports_map_update(self.io_ports@, i as int, IoPort { addr, data });
                }
                self.io_ports.set(i, IoPort { addr, data });
                proof {
                    assert(self@ =~= spec_write_io(old(self)@, addr, data));
                }
                return ;
            }
            i = i + 1;
        }
        proof {
            lemma_ports_map_absent(self.io_ports@, addr);
            assert(self@ =~= spec_write_io(old(self)@, addr, data));
        }
    }

    /// Consumes the byte at PC and advances PC modulo 65536.
    fn read_8bits(&mut self) -> (r: Result<u8, EmuError>)
        requires
            old(self).wf(),
        ensures
            final(self).wf(),
            match spec_fetch8(old(self)@) {
                Ok((s2, v)) => r == Ok::<u8, EmuError>(v) && final(self)@ == s2,
                Err(e) => r == Err::<u8, EmuError>(e) && final(self)@ == old(self)@,
            },
    {
        let v = match self.read_memory(self.pc) {
            Ok(v) => v,
            Err(e) => {
                return Err(e);
            },
        };
        self.pc = if self.pc == 0xffff {
            0
        } else {
            self.pc + 1
        };
        proof {
            assert(self@ =~= (CpuState { pc: wrap_inc16(old(self)@.pc), ..old(self)@ }));
        }
        Ok(v)
    }

    /// Consumes two bytes at PC, low byte first.
    fn read_16bits(&mut self) -> (r: Result<(u8, u8), EmuError>)
        requires
            old(self).wf(),
        ensures
            final(self).wf(),
            match spec_fetch16(old(self)@) {
                Ok((s2, lo, hi)) => r == Ok::<(u8, u8), EmuError>((lo, hi)) && final(self)@ == s2,
                Err(e) => r is Err && r->Err_0 == e,
            },
    {
        let lo = match self.read_8bits() {
            Ok(v) => v,
            Err(e) => {
                return Err(e);
            },
        };
        let hi = match self.read_8bits() {
            Ok(v) => v,
            Err(e) => {
                return Err(e);
            },
        };
        Ok((lo, hi))
    }

    /// Reads the register `r`.
    fn read_reg(&self, r: Reg) -> (v: u8)
        ensures
            v == get_reg(self@, r),
    {
        match r {
            Reg::B => self.b,
            Reg::C => self.c,
            Reg::D => self.d,
            Reg::E => self.e,
            Reg::H => self.h,
            Reg::L => self.l,
            Reg::A => self.a,
        }
    }

    /// Replaces the register `r`.
    fn write_reg(&mut self, r: Reg, v: u8)
        requires
            old(self).wf(),
        ensures
            final(self).wf(),
            final(self)@ == set_reg(old(self)@, r, v),
    {
        match r {
            Reg::B => self.b = v,
            Reg::C => self.c = v,
            Reg::D => self.d = v,
            Reg::E => self.e = v,
            Reg::H => self.h = v,
            Reg::L => self.l = v,
            Reg::A => self.a = v,
        }
    }

    /// Reads the register pair `p`.
    fn read_pair(&self, p: RegPair) -> (v: u16)
        ensures
            v == get_pair(self@, p),
    {
        match p {
            RegPair::BC => self.get_addr_bc(),
            RegPair::DE => self.get_addr_de(),
            RegPair::HL => self.get_addr_hl(),
            RegPair::SP => self.sp,
        }
    }

    /// Replaces the register pair `p`.
    fn write_pair(&mut self, p: RegPair, v: u16)
        requires
            old(self).wf(),
        ensures
            final(self).wf(),
            final(self)@ == set_pair(old(self)@, p, v),
    {
        let hi = (v >> 8) as u8;
        let lo = (v & 0xff) as u8;
        match p {
            RegPair::BC => {
                self.b = hi;
                self.c = lo;
            },
            RegPair::DE => {
                self.d = hi;
                self.e = lo;
            },
            RegPair::HL => {
                self.h = hi;
                self.l = lo;
            },
            RegPair::SP => {
                self.sp = v;
            },
        }
    }

    /// The register selected by a 3-bit opcode field other than 6.
    fn reg_from_code(c: u8) -> (r: Reg)
        requires
            c < 8,
            c != 6,
        ensures
            r == reg_of_code(c),
            code_of_reg(r) == c,
    {
        if c == 0 {
            Reg::B
        } else if c == 1 {
            Reg::C
        } else if c == 2 {
            Reg::D
        } else if c == 3 {
            Reg::E
        } else if c == 4 {
            Reg::H
        } else if c == 5 {
            Reg::L
        } else {
            Reg::A
        }
    }

    /// Whether the branch condition `c` holds of the current flags.
    fn cond_exec(&self, c: Cond) -> (b: bool)
        ensures
            b == cond_holds(self@, c),
    {
        match c {
            Cond::Nz => !self.get_zero(),
            Cond::Z => self.get_zero(),
            Cond::Nc => !self.get_carry(),
            Cond::C => self.get_carry(),
            Cond::Po => !self.get_parity(),
            Cond::Pe => self.get_parity(),
            Cond::P => !self.get_sign(),
            Cond::M => self.get_sign(),
        }
    }

    /// Pushes `hi` then `lo` below the stack pointer.
    fn push16(&mut self, hi: u8, lo: u8) -> (r: Result<(), EmuError>)
        requires
            old(self).wf(),
        ensures
            final(self).wf(),
            match spec_push(old(self)@, hi, lo) {
                Ok(s2) => r == Ok::<(), EmuError>(()) && final(self)@ == s2,
                Err(e) => r == Err::<(), EmuError>(e),
            },
    {
        let sp1 = if self.sp == 0 {
            0xffffu16
        } else {
            self.sp - 1
        };
        match self.write_memory(sp1, hi) {
            Ok(_) => {},
            Err(e) => {
                return Err(e);
            },
        }
        let sp2 = if sp1 == 0 {
            0xffffu16
        } else {
            sp1 - 1
        };
        match self.write_memory(sp2, lo) {
            Ok(_) => {},
            Err(e) => {
                return Err(e);
            },
        }
        self.sp = sp2;
        Ok(())
    }

    /// Pops the low byte at SP, then the high byte above it.
    fn pop16(&mut self) -> (r: Result<(u8, u8), EmuError>)
        requires
            old(self).wf(),
        ensures
            final(self).wf(),
            match spec_pop(old(self)@) {
                Ok((s2, lo, hi)) => r == Ok::<(u8, u8), EmuError>((lo, hi)) && final(self)@ == s2,
                Err(e) => r is Err && r->Err_0 == e,
            },
    {
        let lo = match self.read_memory(self.sp) {
            Ok(v) => v,
            Err(e) => {
                return Err(e);
            },
        };
        let sp1 = if self.sp == 0xffff {
            0u16
        } else {
            self.sp + 1
        };
        let hi = match self.read_memory(sp1) {
            Ok(v) => v,
            Err(e) => {
                return Err(e);
            },
        };
        self.sp = if sp1 == 0xffff {
            0u16
        } else {
            sp1 + 1
        };
        proof {
            assert(self@ =~= (CpuState {
                sp: wrap_inc16(wrap_inc16(old(self)@.sp)),
                ..old(self)@
            }));
        }
        Ok((lo, hi))
    }

    // --------------------------------------------------------------
    // Data movement
    // --------------------------------------------------------------

    /// NOP: four T-states, no state change.
    pub fn nop(&mut self) -> (t: u8)
        requires
            old(self).wf(),
        ensures
            final(self).wf(),
            final(self)@ == old(self)@,
            t == 4,
    {
        4
    }

    /// RIM: recognized but performs no observable state change here.
    pub fn rim(&mut self) -> (t: u8)
        requires
            old(self).wf(),
        ensures
            final(self).wf(),
            final(self)@ == old(self)@,
            t == 4,
    {
        4
    }

    /// SIM: recognized but performs no observable state change here.
    pub fn sim(&mut self) -> (t: u8)
        requires
            old(self).wf(),
        ensures
            final(self).wf(),
            final(self)@ == old(self)@,
            t == 4,
    {
        4
    }

    /// EI: sets the interrupt-enable latch.
    pub fn ei(&mut self) -> (t: u8)
        requires
            old(self).wf(),
        ensures
            final(self).wf(),
            final(self)@ == (CpuState { ie: true, ..old(self)@ }),
            t == 4,
    {
        self.ie = true;
        4
    }

    /// DI: clears the interrupt-enable latch.
    pub fn di(&mut self) -> (t: u8)
        requires
            old(self).wf(),
        ensures
            final(self).wf(),
            final(self)@ == (CpuState { ie: false, ..old(self)@ }),
            t == 4,
    {
        self.ie = false;
        4
    }

    /// HLT: latches the halt state; only a reset clears it.
    pub fn hlt(&mut self) -> (t: u8)
        requires
            old(self).wf(),
        ensures
            final(self).wf(),
            final(self)@ == (CpuState { hlt: true, ..old(self)@ }),
            t == 5,
    {
        self.hlt = true;
        5
    }

    /// MOV r,r: copies register `rs` into register `rd`.
    pub fn mov_rr(&mut self, rd: Reg, rs: Reg) -> (t: u8)
        requires
            old(self).wf(),
        ensures
            final(self).wf(),
            final(self)@ == set_reg(old(self)@, rd, get_reg(old(self)@, rs)),
            t == 4,
    {
        let v = self.read_reg(rs);
        self.write_reg(rd, v);
        4
    }

    /// MOV r,M: the byte at HL into register `rd`.
    pub fn mov_r_m(&mut self, rd: Reg) -> (r: Result<u8, EmuError>)
        requires
            old(self).wf(),
        ensures
            final(self).wf(),
            step_outcome(final(self)@, r, spec_mov(old(self)@, code_of_reg(rd), 6)),
    {
        let addr = self.get_addr_hl();
        let v = match self.read_memory(addr) {
            Ok(v) => v,
            Err(e) => {
                return Err(e);
            },
        };
        self.write_reg(rd, v);
        Ok(7)
    }

    /// MOV M,r: register `rs` into the byte at HL.
    pub fn mov_m_r(&mut self, rs: Reg) -> (r: Result<u8, EmuError>)
        requires
            old(self).wf(),
        ensures
            final(self).wf(),
            step_outcome(final(self)@, r, spec_mov(old(self)@, 6, code_of_reg(rs))),
    {
        let addr = self.get_addr_hl();
        let v = self.read_reg(rs);
        match self.write_memory(addr, v) {
            Ok(_) => Ok(7),
            Err(e) => Err(e),
        }
    }

    /// MVI r: an immediate byte into register `rd`.
    pub fn mvi_r(&mut self, rd: Reg) -> (r: Result<u8, EmuError>)
        requires
            old(self).wf(),
        ensures
            final(self).wf(),
            step_outcome(final(self)@, r, spec_mvi(old(self)@, code_of_reg(rd))),
    {
        let v = match self.read_8bits() {
            Ok(v) => v,
            Err(e) => {
                return Err(e);
            },
        };
        self.write_reg(rd, v);
        Ok(7)
    }

    /// MVI M: an immediate byte into the byte at HL.
    pub fn mvi_m(&mut self) -> (r: Result<u8, EmuError>)
        requires
            old(self).wf(),
        ensures
            final(self).wf(),
            step_outcome(final(self)@, r, spec_mvi(old(self)@, 6)),
    {
        let v = match self.read_8bits() {
            Ok(v) => v,
            Err(e) => {
                return Err(e);
            },
        };
        let addr = self.get_addr_hl();
        match self.write_memory(addr, v) {
            Ok(_) => Ok(10),
            Err(e) => Err(e),
        }
    }

    /// LXI: a 16-bit immediate, low byte first, into the pair `p`.
    pub fn lxi(&mut self, p: RegPair) -> (r: Result<u8, EmuError>)
        requires
            old(self).wf(),
        ensures
            final(self).wf(),
            step_outcome(final(self)@, r, spec_lxi(old(self)@, p)),
    {
        let (lo, hi) = match self.read_16bits() {
            Ok(v) => v,
            Err(e) => {
                return Err(e);
            },
        };
        self.write_pair(p, ((hi as u16) << 8) | (lo as u16));
        Ok(10)
    }

    /// STAX B: the accumulator into the byte addressed by BC.
    pub fn stax_b(&mut self) -> (r: Result<u8, EmuError>)
        requires
            old(self).wf(),
        ensures
            final(self).wf(),
            step_outcome(
                final(self)@,
                r,
                spec_stax(old(self)@, word(old(self)@.b, old(self)@.c)),
            ),
    {
        let addr = self.get_addr_bc();
        match self.write_memory(addr, self.a) {
            Ok(_) => Ok(7),
            Err(e) => Err(e),
        }
    }

    /// STAX D: the accumulator into the byte addressed by DE.
    pub fn stax_d(&mut self) -> (r: Result<u8, EmuError>)
        requires
            old(self).wf(),
        ensures
            final(self).wf(),
            step_outcome(
                final(self)@,
                r,
                spec_stax(old(self)@, word(old(self)@.d, old(self)@.e)),
            ),
    {
        let addr = self.get_addr_de();
        match self.write_memory(addr, self.a) {
            Ok(_) => Ok(7),
            Err(e) => Err(e),
        }
    }

    /// LDAX B: the byte addressed by BC into the accumulator.
    pub fn ldax_b(&mut self) -> (r: Result<u8, EmuError>)
        requires
            old(self).wf(),
        ensures
            final(self).wf(),
            step_outcome(
                final(self)@,
                r,
                spec_ldax(old(self)@, word(old(self)@.b, old(self)@.c)),
            ),
    {
        let addr = self.get_addr_bc();
        match self.read_memory(addr) {
            Ok(v) => {
                self.a = v;
                Ok(7)
            },
            Err(e) => Err(e),
        }
    }

    /// LDAX D: the byte addressed by DE into the accumulator.
    pub fn ldax_d(&mut self) -> (r: Result<u8, EmuError>)
        requires
            old(self).wf(),
        ensures
            final(self).wf(),
            step_outcome(
                final(self)@,
                r,
                spec_ldax(old(self)@, word(old(self)@.d, old(self)@.e)),
            ),
    {
        let addr = self.get_addr_de();
        match self.read_memory(addr) {
            Ok(v) => {
                self.a = v;
                Ok(7)
            },
            Err(e) => Err(e),
        }
    }

    /// STA: the accumulator into a direct address.
    pub fn sta(&mut self) -> (r: Result<u8, EmuError>)
        requires
            old(self).wf(),
        ensures
            final(self).wf(),
            step_outcome(final(self)@, r, spec_sta(old(self)@)),
    {
        let (lo, hi) = match self.read_16bits() {
            Ok(v) => v,
            Err(e) => {
                return Err(e);
            },
        };
        let addr = ((hi as u16) << 8) | (lo as u16);
        match self.write_memory(addr, self.a) {
            Ok(_) => Ok(13),
            Err(e) => Err(e),
        }
    }

    /// LDA: the byte at a direct address into the accumulator.
    pub fn lda(&mut self) -> (r: Result<u8, EmuError>)
        requires
            old(self).wf(),
        ensures
            final(self).wf(),
            step_outcome(final(self)@, r, spec_lda(old(self)@)),
    {
        let (lo, hi) = match self.read_16bits() {
            Ok(v) => v,
            Err(e) => {
                return Err(e);
            },
        };
        let addr = ((hi as u16) << 8) | (lo as u16);
        match self.read_memory(addr) {
            Ok(v) => {
                self.a = v;
                Ok(13)
            },
            Err(e) => Err(e),
        }
    }

    /// SHLD: L into the direct address, H into the following byte.
    pub fn shld(&mut self) -> (r: Result<u8, EmuError>)
        requires
            old(self).wf(),
        ensures
            final(self).wf(),
            step_outcome(final(self)@, r, spec_shld(old(self)@)),
    {
        let (lo, hi) = match self.read_16bits() {
            Ok(v) => v,
            Err(e) => {
                return Err(e);
            },
        };
        let addr = ((hi as u16) << 8) | (lo as u16);
        match self.write_memory(addr, self.l) {
            Ok(_) => {},
            Err(e) => {
                return Err(e);
            },
        }
        let addr1 = if addr == 0xffff {
            0u16
        } else {
            addr + 1
        };
        match self.write_memory(addr1, self.h) {
            Ok(_) => Ok(16),
            Err(e) => Err(e),
        }
    }

    /// LHLD: the byte at the direct address into L, the following byte
    /// into H.
    pub fn lhld(&mut self) -> (r: Result<u8, EmuError>)
        requires
            old(self).wf(),
        ensures
            final(self).wf(),
            step_outcome(final(self)@, r, spec_lhld(old(self)@)),
    {
        let (lo, hi) = match self.read_16bits() {
            Ok(v) => v,
            Err(e) => {
                return Err(e);
            },
        };
        let addr = ((hi as u16) << 8) | (lo as u16);
        let vl = match self.read_memory(addr) {
            Ok(v) => v,
            Err(e) => {
                return Err(e);
            },
        };
        let addr1 = if addr == 0xffff {
            0u16
        } else {
            addr + 1
        };
        let vh = match self.read_memory(addr1) {
            Ok(v) => v,
            Err(e) => {
                return Err(e);
            },
        };
        self.l = vl;
        self.h = vh;
        Ok(16)
    }

    /// XCHG: exchanges the DE and HL pairs.
    pub fn xchg(&mut self) -> (t: u8)
        requires
            old(self).wf(),
        ensures
            final(self).wf(),
            final(self)@ == (CpuState {
                h: old(self)@.d,
                d: old(self)@.h,
                l: old(self)@.e,
                e: old(self)@.l,
                ..old(self)@
            }),
            t == 4,
    {
        let t1 = self.h;
        self.h = self.d;
        self.d = t1;
        let t2 = self.l;
        self.l = self.e;
        self.e = t2;
        4
    }

    // --------------------------------------------------------------
    // Arithmetic and logic
    // --------------------------------------------------------------

    /// S, Z and P set from the result `r`, written back to F.
    fn flags_szp_exec(f: u8, r: u8) -> (x: u8)
        ensures
            x == flags_szp(f, r),
    {
        set_mask(set_mask(set_mask(f, MASK_S, r & 0x80 != 0), MASK_Z, r == 0), MASK_P, find_parity(r))
    }

    /// Adds `v` plus `cin` into the accumulator with the full flag
    /// update of [`alu_add`].
    fn do_add(&mut self, v: u8, cin: u8)
        requires
            old(self).wf(),
            cin <= 1,
        ensures
            final(self).wf(),
            final(self)@ == (CpuState {
                a: alu_add(old(self)@.a, v, cin, old(self)@.f).0,
                f: alu_add(old(self)@.a, v, cin, old(self)@.f).1,
                ..old(self)@
            }),
    {
        let sum: u16 = self.a as u16 + v as u16 + cin as u16;
        let r = (sum % 256) as u8;
        let cy = sum >= 256;
        let ac = (self.a & 0x0f) as u16 + (v & 0x0f) as u16 + cin as u16 >= 0x10;
        let nf = set_mask(
            set_mask(set_mask(Self::flags_szp_exec(self.f, r), MASK_AC, ac), MASK_CY, cy),
            MASK_OV,
            cy,
        );
        self.a = r;
        self.f = nf;
    }

    /// Subtracts `v` plus `cin` from the accumulator with the full
    /// flag update of [`alu_sub`].
    fn do_sub(&mut self, v: u8, cin: u8)
        requires
            old(self).wf(),
            cin <= 1,
        ensures
            final(self).wf(),
            final(self)@ == (CpuState {
                a: alu_sub(old(self)@.a, v, cin, old(self)@.f).0,
                f: alu_sub(old(self)@.a, v, cin, old(self)@.f).1,
                ..old(self)@
            }),
    {
        let sum: u16 = 256 + self.a as u16 - v as u16 - cin as u16;
        let r = (sum % 256) as u8;
        let cy = (self.a as u16) < v as u16 + cin as u16;
        let ac = ((self.a & 0x0f) as u16) < (v & 0x0f) as u16 + cin as u16;
        let nf = set_mask(
            set_mask(set_mask(Self::flags_szp_exec(self.f, r), MASK_AC, ac), MASK_CY, cy),
            MASK_OV,
            cy,
        );
        self.a = r;
        self.f = nf;
    }

    /// Compares `v` against the accumulator, writing CY and Z only.
    fn do_cmp(&mut self, v: u8)
        requires
            old(self).wf(),
        ensures
            final(self).wf(),
            final(self)@ == (CpuState {
                f: cmp_flags(old(self)@.f, v, old(self)@.a),
                ..old(self)@
            }),
    {
        let nf = set_mask(set_mask(self.f, MASK_CY, v < self.a), MASK_Z, v == self.a);
        self.f = nf;
    }

    /// Applies ALU family `fam` to the operand `v`.
    fn alu_exec(&mut self, fam: u8, v: u8)
        requires
            old(self).wf(),
            fam < 8,
        ensures
            final(self).wf(),
            final(self)@ == alu_apply(old(self)@, fam, v),
    {
        let cin: u8 = if self.f & MASK_CY != 0 {
            1
        } else {
            0
        };
        if fam == 0 {
            self.do_add(v, 0);
        } else if fam == 1 {
            self.do_add(v, cin);
        } else if fam == 2 {
            self.do_sub(v, 0);
        } else if fam == 3 {
            self.do_sub(v, cin);
        } else if fam == 4 {
            let r = self.a & v;
            let nf = Self::flags_szp_exec(self.f, r);
            self.a = r;
            self.f = nf;
        } else if fam == 5 {
            let r = self.a ^ v;
            let nf = Self::flags_szp_exec(self.f, r);
            self.a = r;
            self.f = nf;
        } else if fam == 6 {
            let r = self.a | v;
            let nf = Self::flags_szp_exec(self.f, r);
            self.a = r;
            self.f = nf;
        } else {
            self.do_cmp(v);
        }
    }

    /// An ALU instruction on a register operand: four T-states.
    fn alu_r(&mut self, fam: u8, rs: Reg) -> (t: u8)
        requires
            old(self).wf(),
            fam < 8,
        ensures
            final(self).wf(),
            Ok::<StepOk, EmuError>((final(self)@, t)) == spec_alu_op(
                old(self)@,
                fam,
                code_of_reg(rs),
            ),
    {
        let v = self.read_reg(rs);
        self.alu_exec(fam, v);
        4
    }

    /// An ALU instruction on the byte at HL: seven T-states.
    fn alu_m(&mut self, fam: u8) -> (r: Result<u8, EmuError>)
        requires
            old(self).wf(),
            fam < 8,
        ensures
            final(self).wf(),
            step_outcome(final(self)@, r, spec_alu_op(old(self)@, fam, 6)),
    {
        let addr = self.get_addr_hl();
        let v = match self.read_memory(addr) {
            Ok(v) => v,
            Err(e) => {
                return Err(e);
            },
        };
        self.alu_exec(fam, v);
        Ok(7)
    }

    /// An ALU instruction on an immediate operand: seven T-states.
    fn alu_i(&mut self, fam: u8) -> (r: Result<u8, EmuError>)
        requires
            old(self).wf(),
            fam < 8,
        ensures
            final(self).wf(),
            step_outcome(final(self)@, r, spec_alu_imm(old(self)@, fam)),
    {
        let v = match self.read_8bits() {
            Ok(v) => v,
            Err(e) => {
                return Err(e);
            },
        };
        self.alu_exec(fam, v);
        Ok(7)
    }

    /// ADD r: adds register `rs` to the accumulator.
    pub fn add_r(&mut self, rs: Reg) -> (t: u8)
        requires
            old(self).wf(),
        ensures
            final(self).wf(),
            Ok::<StepOk, EmuError>((final(self)@, t)) == spec_alu_op(old(self)@, 0, code_of_reg(rs)),
    {
        self.alu_r(0, rs)
    }

    /// ADC r: adds register `rs` and the carry to the accumulator.
    pub fn adc_r(&mut self, rs: Reg) -> (t: u8)
        requires
            old(self).wf(),
        ensures
            final(self).wf(),
            Ok::<StepOk, EmuError>((final(self)@, t)) == spec_alu_op(old(self)@, 1, code_of_reg(rs)),
    {
        self.alu_r(1, rs)
    }

    /// SUB r: subtracts register `rs` from the accumulator.
    pub fn sub_r(&mut self, rs: Reg) -> (t: u8)
        requires
            old(self).wf(),
        ensures
            final(self).wf(),
            Ok::<StepOk, EmuError>((final(self)@, t)) == spec_alu_op(old(self)@, 2, code_of_reg(rs)),
    {
        self.alu_r(2, rs)
    }

    /// SBB r: subtracts register `rs` and the borrow from the
    /// accumulator.
    pub fn sbb_r(&mut self, rs: Reg) -> (t: u8)
        requires
            old(self).wf(),
        ensures
            final(self).wf(),
            Ok::<StepOk, EmuError>((final(self)@, t)) == spec_alu_op(old(self)@, 3, code_of_reg(rs)),
    {
        self.alu_r(3, rs)
    }

    /// ANA r: bitwise AND of register `rs` into the accumulator.
    pub fn ana_r(&mut self, rs: Reg) -> (t: u8)
        requires
            old(self).wf(),
        ensures
            final(self).wf(),
            Ok::<StepOk, EmuError>((final(self)@, t)) == spec_alu_op(old(self)@, 4, code_of_reg(rs)),
    {
        self.alu_r(4, rs)
    }

    /// XRA r: bitwise XOR of register `rs` into the accumulator.
    pub fn xra_r(&mut self, rs: Reg) -> (t: u8)
        requires
            old(self).wf(),
        ensures
            final(self).wf(),
            Ok::<StepOk, EmuError>((final(self)@, t)) == spec_alu_op(old(self)@, 5, code_of_reg(rs)),
    {
        self.alu_r(5, rs)
    }

    /// ORA r: bitwise OR of register `rs` into the accumulator.
    pub fn ora_r(&mut self, rs: Reg) -> (t: u8)
        requires
            old(self).wf(),
        ensures
            final(self).wf(),
            Ok::<StepOk, EmuError>((final(self)@, t)) == spec_alu_op(old(self)@, 6, code_of_reg(rs)),
    {
        self.alu_r(6, rs)
    }

    /// CMP r: compares register `rs` against the accumulator.
    pub fn cmp_r(&mut self, rs: Reg) -> (t: u8)
        requires
            old(self).wf(),
        ensures
            final(self).wf(),
            Ok::<StepOk, EmuError>((final(self)@, t)) == spec_alu_op(old(self)@, 7, code_of_reg(rs)),
    {
        self.alu_r(7, rs)
    }

    /// ADD M: adds the byte at HL to the accumulator.
    pub fn add_m(&mut self) -> (r: Result<u8, EmuError>)
        requires
            old(self).wf(),
        ensures
            final(self).wf(),
            step_outcome(final(self)@, r, spec_alu_op(old(self)@, 0, 6)),
    {
        self.alu_m(0)
    }

    /// ADC M: adds the byte at HL and the carry to the accumulator.
    pub fn adc_m(&mut self) -> (r: Result<u8, EmuError>)
        requires
            old(self).wf(),
        ensures
            final(self).wf(),
            step_outcome(final(self)@, r, spec_alu_op(old(self)@, 1, 6)),
    {
        self.alu_m(1)
    }

    /// SUB M: subtracts the byte at HL from the accumulator.
    pub fn sub_m(&mut self) -> (r: Result<u8, EmuError>)
        requires
            old(self).wf(),
        ensures
            final(self).wf(),
            step_outcome(final(self)@, r, spec_alu_op(old(self)@, 2, 6)),
    {
        self.alu_m(2)
    }

    /// SBB M: subtracts the byte at HL and the borrow from the
    /// accumulator.
    pub fn sbb_m(&mut self) -> (r: Result<u8, EmuError>)
        requires
            old(self).wf(),
        ensures
            final(self).wf(),
            step_outcome(final(self)@, r, spec_alu_op(old(self)@, 3, 6)),
    {
        self.alu_m(3)
    }

    /// ANA M: bitwise AND of the byte at HL into the accumulator.
    pub fn ana_m(&mut self) -> (r: Result<u8, EmuError>)
        requires
            old(self).wf(),
        ensures
            final(self).wf(),
            step_outcome(final(self)@, r, spec_alu_op(old(self)@, 4, 6)),
    {
        self.alu_m(4)
    }

    /// XRA M: bitwise XOR of the byte at HL into the accumulator.
    pub fn xra_m(&mut self) -> (r: Result<u8, EmuError>)
        requires
            old(self).wf(),
        ensures
            final(self).wf(),
            step_outcome(final(self)@, r, spec_alu_op(old(self)@, 5, 6)),
    {
        self.alu_m(5)
    }

    /// ORA M: bitwise OR of the byte at HL into the accumulator.
    pub fn ora_m(&mut self) -> (r: Result<u8, EmuError>)
        requires
            old(self).wf(),
        ensures
            final(self).wf(),
            step_outcome(final(self)@, r, spec_alu_op(old(self)@, 6, 6)),
    {
        self.alu_m(6)
    }

    /// CMP M: compares the byte at HL against the accumulator.
    pub fn cmp_m(&mut self) -> (r: Result<u8, EmuError>)
        requires
            old(self).wf(),
        ensures
            final(self).wf(),
            step_outcome(final(self)@, r, spec_alu_op(old(self)@, 7, 6)),
    {
        self.alu_m(7)
    }

    /// ADI: adds an immediate byte to the accumulator.
    pub fn adi(&mut self) -> (r: Result<u8, EmuError>)
        requires
            old(self).wf(),
        ensures
            final(self).wf(),
            step_outcome(final(self)@, r, spec_alu_imm(old(self)@, 0)),
    {
        self.alu_i(0)
    }

    /// ACI: adds an immediate byte and the carry to the accumulator.
    pub fn aci(&mut self) -> (r: Result<u8, EmuError>)
        requires
            old(self).wf(),
        ensures
            final(self).wf(),
            step_outcome(final(self)@, r, spec_alu_imm(old(self)@, 1)),
    {
        self.alu_i(1)
    }

    /// SUI: subtracts an immediate byte from the accumulator.
    pub fn sui(&mut self) -> (r: Result<u8, EmuError>)
        requires
            old(self).wf(),
        ensures
            final(self).wf(),
            step_outcome(final(self)@, r, spec_alu_imm(old(self)@, 2)),
    {
        self.alu_i(2)
    }

    /// SBI: subtracts an immediate byte and the borrow from the
    /// accumulator.
    pub fn sbi(&mut self) -> (r: Result<u8, EmuError>)
        requires
            old(self).wf(),
        ensures
            final(self).wf(),
            step_outcome(final(self)@, r, spec_alu_imm(old(self)@, 3)),
    {
        self.alu_i(3)
    }

    /// ANI: bitwise AND of an immediate byte into the accumulator.
    pub fn ani(&mut self) -> (r: Result<u8, EmuError>)
        requires
            old(self).wf(),
        ensures
            final(self).wf(),
            step_outcome(final(self)@, r, spec_alu_imm(old(self)@, 4)),
    {
        self.alu_i(4)
    }

    /// XRI: bitwise XOR of an immediate byte into the accumulator.
    pub fn xri(&mut self) -> (r: Result<u8, EmuError>)
        requires
            old(self).wf(),
        ensures
            final(self).wf(),
            step_outcome(final(self)@, r, spec_alu_imm(old(self)@, 5)),
    {
        self.alu_i(5)
    }

    /// ORI: bitwise OR of an immediate byte into the accumulator.
    pub fn ori(&mut self) -> (r: Result<u8, EmuError>)
        requires
            old(self).wf(),
        ensures
            final(self).wf(),
            step_outcome(final(self)@, r, spec_alu_imm(old(self)@, 6)),
    {
        self.alu_i(6)
    }

    /// CPI: compares an immediate byte against the accumulator.
    pub fn cpi(&mut self) -> (r: Result<u8, EmuError>)
        requires
            old(self).wf(),
        ensures
            final(self).wf(),
            step_outcome(final(self)@, r, spec_alu_imm(old(self)@, 7)),
    {
        self.alu_i(7)
    }

    /// INR r: increments register `rd`; CY is untouched.
    #[verifier::rlimit(100)]
    #[verifier::spinoff_prover]
    pub fn inr_r(&mut self, rd: Reg) -> (t: u8)
        requires
            old(self).wf(),
        ensures
            final(self).wf(),
            Ok::<StepOk, EmuError>((final(self)@, t)) == spec_inr(old(self)@, code_of_reg(rd)),
    {
        let x = self.read_reg(rd);
        let r = if x < 0xff {
            x + 1
        } else {
            0
        };
        let nf = set_mask(
            set_mask(Self::flags_szp_exec(self.f, r), MASK_AC, x & 0x0f == 0x0f),
            MASK_OV,
            r == 0,
        );
        self.write_reg(rd, r);
        self.f = nf;
        4
    }

    /// DCR r: decrements register `rd`; CY is untouched.
    #[verifier::rlimit(100)]
    #[verifier::spinoff_prover]
    pub fn dcr_r(&mut self, rd: Reg) -> (t: u8)
        requires
            old(self).wf(),
        ensures
            final(self).wf(),
            Ok::<StepOk, EmuError>((final(self)@, t)) == spec_dcr(old(self)@, code_of_reg(rd)),
    {
        let x = self.read_reg(rd);
        let r = if x > 0 {
            x - 1
        } else {
            0xff
        };
        let nf = set_mask(
            set_mask(Self::flags_szp_exec(self.f, r), MASK_AC, x & 0x0f == 0),
            MASK_OV,
            r == 0xff,
        );
        self.write_reg(rd, r);
        self.f = nf;
        4
    }

    /// INR M: increments the byte at HL; CY is untouched.
    pub fn inr_m(&mut self) -> (r: Result<u8, EmuError>)
        requires
            old(self).wf(),
        ensures
            final(self).wf(),
            step_outcome(final(self)@, r, spec_inr(old(self)@, 6)),
    {
        let addr = self.get_addr_hl();
        let x = match self.read_memory(addr) {
            Ok(v) => v,
            Err(e) => {
                return Err(e);
            },
        };
        let v = if x < 0xff {
            x + 1
        } else {
            0
        };
        let nf = set_mask(
            set_mask(Self::flags_szp_exec(self.f, v), MASK_AC, x & 0x0f == 0x0f),
            MASK_OV,
            v == 0,
        );
        match self.write_memory(addr, v) {
            Ok(_) => {},
            Err(e) => {
                return Err(e);
            },
        }
        self.f = nf;
        Ok(10)
    }

    /// DCR M: decrements the byte at HL; CY is untouched.
    pub fn dcr_m(&mut self) -> (r: Result<u8, EmuError>)
        requires
            old(self).wf(),
        ensures
            final(self).wf(),
            step_outcome(final(self)@, r, spec_dcr(old(self)@, 6)),
    {
        let addr = self.get_addr_hl();
        let x = match self.read_memory(addr) {
            Ok(v) => v,
            Err(e) => {
                return Err(e);
            },
        };
        let v = if x > 0 {
            x - 1
        } else {
            0xff
        };
        let nf = set_mask(
            set_mask(Self::flags_szp_exec(self.f, v), MASK_AC, x & 0x0f == 0),
            MASK_OV,
            v == 0xff,
        );
        match self.write_memory(addr, v) {
            Ok(_) => {},
            Err(e) => {
                return Err(e);
            },
        }
        self.f = nf;
        Ok(10)
    }

    /// INX: increments the pair `p` modulo 65536; a wrap sets both
    /// overflow witnesses.
    pub fn inx(&mut self, p: RegPair) -> (t: u8)
        requires
            old(self).wf(),
        ensures
            final(self).wf(),
            Ok::<StepOk, EmuError>((final(self)@, t)) == spec_inx_dcx(old(self)@, p, true),
    {
        let v = self.read_pair(p);
        if v < 0xffff {
            self.write_pair(p, v + 1);
        } else {
            self.write_pair(p, 0);
            self.f = self.f | MASK_OV;
        }
        6
    }

    /// DCX: decrements the pair `p` modulo 65536; a wrap sets both
    /// overflow witnesses.
    pub fn dcx(&mut self, p: RegPair) -> (t: u8)
        requires
            old(self).wf(),
        ensures
            final(self).wf(),
            Ok::<StepOk, EmuError>((final(self)@, t)) == spec_inx_dcx(old(self)@, p, false),
    {
        let v = self.read_pair(p);
        if v > 0 {
            self.write_pair(p, v - 1);
        } else {
            self.write_pair(p, 0xffff);
            self.f = self.f | MASK_OV;
        }
        6
    }

    /// DAD: adds the pair `p` into HL; CY and the overflow witnesses
    /// report the wrap.
    pub fn dad(&mut self, p: RegPair) -> (t: u8)
        requires
            old(self).wf(),
        ensures
            final(self).wf(),
            Ok::<StepOk, EmuError>((final(self)@, t)) == spec_dad(old(self)@, p),
    {
        let hl = self.get_addr_hl();
        let rp = self.read_pair(p);
        let sum: u32 = hl as u32 + rp as u32;
        let r = (sum % 0x10000) as u16;
        let cy = sum >= 0x10000;
        let nf = set_mask(set_mask(self.f, MASK_CY, cy), MASK_OV, cy);
        self.h = (r >> 8) as u8;
        self.l = (r & 0xff) as u8;
        self.f = nf;
        10
    }

    // --------------------------------------------------------------
    // Rotates and accumulator specials
    // --------------------------------------------------------------

    /// RLC: rotates A left; bit 7 goes to bit 0 and to CY.
    pub fn rlc(&mut self) -> (t: u8)
        requires
            old(self).wf(),
        ensures
            final(self).wf(),
            final(self)@ == (CpuState {
                a: rlc_core(old(self)@.a, old(self)@.f).0,
                f: rlc_core(old(self)@.a, old(self)@.f).1,
                ..old(self)@
            }),
            t == 4,
    {
        let cy = self.a & 0x80 != 0;
        self.a = (self.a << 1u8) | (self.a >> 7u8);
        self.f = set_mask(self.f, MASK_CY, cy);
        4
    }

    /// RRC: rotates A right; bit 0 goes to bit 7 and to CY.
    pub fn rrc(&mut self) -> (t: u8)
        requires
            old(self).wf(),
        ensures
            final(self).wf(),
            final(self)@ == (CpuState {
                a: rrc_core(old(self)@.a, old(self)@.f).0,
                f: rrc_core(old(self)@.a, old(self)@.f).1,
                ..old(self)@
            }),
            t == 4,
    {
        let cy = self.a & 1 != 0;
        self.a = (self.a >> 1u8) | (self.a << 7u8);
        self.f = set_mask(self.f, MASK_CY, cy);
        4
    }

    /// RAL: rotates A left through CY.
    pub fn ral(&mut self) -> (t: u8)
        requires
            old(self).wf(),
        ensures
            final(self).wf(),
            final(self)@ == (CpuState {
                a: ral_core(old(self)@.a, old(self)@.f).0,
                f: ral_core(old(self)@.a, old(self)@.f).1,
                ..old(self)@
            }),
            t == 4,
    {
        let cy = self.a & 0x80 != 0;
        let cin: u8 = if self.get_carry() {
            1
        } else {
            0
        };
        self.a = (self.a << 1u8) | cin;
        self.f = set_mask(self.f, MASK_CY, cy);
        4
    }

    /// RAR: rotates A right through CY.
    pub fn rar(&mut self) -> (t: u8)
        requires
            old(self).wf(),
        ensures
            final(self).wf(),
            final(self)@ == (CpuState {
                a: rar_core(old(self)@.a, old(self)@.f).0,
                f: rar_core(old(self)@.a, old(self)@.f).1,
                ..old(self)@
            }),
            t == 4,
    {
        let cy = self.a & 1 != 0;
        let cin: u8 = if self.get_carry() {
            0x80
        } else {
            0
        };
        self.a = (self.a >> 1u8) | cin;
        self.f = set_mask(self.f, MASK_CY, cy);
        4
    }

    /// DAA: adjusts A toward packed BCD; a carry out of the adjustment
    /// sets CY and the overflow witnesses.
    pub fn daa(&mut self) -> (t: u8)
        requires
            old(self).wf(),
        ensures
            final(self).wf(),
            final(self)@ == (CpuState {
                a: daa_core(old(self)@.a, old(self)@.f).0,
                f: daa_core(old(self)@.a, old(self)@.f).1,
                ..old(self)@
            }),
            t == 4,
    {
        let a0 = self.a;
        let adj1: u16 = if a0 & 0x0f > 0x09 || self.get_auxiliary_carry() {
            0x06
        } else {
            0x00
        };
        let t1: u16 = a0 as u16 + adj1;
        let r1 = (t1 % 256) as u8;
        let adj2: u16 = if r1 & 0xf0 > 0x90 || self.get_carry() {
            0x60
        } else {
            0x00
        };
        let t2: u16 = r1 as u16 + adj2;
        self.a = (t2 % 256) as u8;
        if t1 >= 256 || t2 >= 256 {
            self.f = set_mask(set_mask(self.f, MASK_CY, true), MASK_OV, true);
        }
        4
    }

    /// CMA: complements the accumulator; no flag moves.
    pub fn cma(&mut self) -> (t: u8)
        requires
            old(self).wf(),
        ensures
            final(self).wf(),
            final(self)@ == (CpuState { a: !old(self)@.a, ..old(self)@ }),
            t == 4,
    {
        self.a = !self.a;
        4
    }

    /// STC: sets the carry flag.
    pub fn stc(&mut self) -> (t: u8)
        requires
            old(self).wf(),
        ensures
            final(self).wf(),
            final(self)@ == (CpuState {
                f: spec_set_mask(old(self)@.f, MASK_CY, true),
                ..old(self)@
            }),
            t == 4,
    {
        self.f = set_mask(self.f, MASK_CY, true);
        4
    }

    /// CMC: toggles the carry flag.
    pub fn cmc(&mut self) -> (t: u8)
        requires
            old(self).wf(),
        ensures
            final(self).wf(),
            final(self)@ == (CpuState {
                f: spec_set_mask(old(self)@.f, MASK_CY, !flag_cy(old(self)@.f)),
                ..old(self)@
            }),
            t == 4,
    {
        let c = self.get_carry();
        self.f = set_mask(self.f, MASK_CY, !c);
        4
    }

    // --------------------------------------------------------------
    // Stack and control transfer
    // --------------------------------------------------------------

    /// PUSH: the pair `p` onto the stack, high byte at SP-1.
    pub fn push(&mut self, p: StackPair) -> (r: Result<u8, EmuError>)
        requires
            old(self).wf(),
        ensures
            final(self).wf(),
            step_outcome(final(self)@, r, spec_push_op(old(self)@, p)),
    {
        let hi = match p {
            StackPair::BC => self.b,
            StackPair::DE => self.d,
            StackPair::HL => self.h,
            StackPair::PSW => self.a,
        };
        let lo = match p {
            StackPair::BC => self.c,
            StackPair::DE => self.e,
            StackPair::HL => self.l,
            StackPair::PSW => self.f,
        };
        match self.push16(hi, lo) {
            Ok(_) => Ok(12),
            Err(e) => Err(e),
        }
    }

    /// POP: two stack bytes into the pair `p`, low byte from SP.
    pub fn pop(&mut self, p: StackPair) -> (r: Result<u8, EmuError>)
        requires
            old(self).wf(),
        ensures
            final(self).wf(),
            step_outcome(final(self)@, r, spec_pop_op(old(self)@, p)),
    {
        let (lo, hi) = match self.pop16() {
            Ok(v) => v,
            Err(e) => {
                return Err(e);
            },
        };
        match p {
            StackPair::BC => {
                self.b = hi;
                self.c = lo;
            },
            StackPair::DE => {
                self.d = hi;
                self.e = lo;
            },
            StackPair::HL => {
                self.h = hi;
                self.l = lo;
            },
            StackPair::PSW => {
                self.a = hi;
                self.f = lo;
            },
        }
        Ok(10)
    }

    /// XTHL: exchanges HL with the two bytes at the stack top.
    pub fn xthl(&mut self) -> (r: Result<u8, EmuError>)
        requires
            old(self).wf(),
        ensures
            final(self).wf(),
            step_outcome(final(self)@, r, spec_xthl(old(self)@)),
    {
        let sp1 = if self.sp == 0xffff {
            0u16
        } else {
            self.sp + 1
        };
        let tl = match self.read_memory(self.sp) {
            Ok(v) => v,
            Err(e) => {
                return Err(e);
            },
        };
        let th = match self.read_memory(sp1) {
            Ok(v) => v,
            Err(e) => {
                return Err(e);
            },
        };
        match self.write_memory(self.sp, self.l) {
            Ok(_) => {},
            Err(e) => {
                return Err(e);
            },
        }
        match self.write_memory(sp1, self.h) {
            Ok(_) => {},
            Err(e) => {
                return Err(e);
            },
        }
        self.l = tl;
        self.h = th;
        Ok(16)
    }

    /// SPHL: loads SP from HL.
    pub fn sphl(&mut self) -> (t: u8)
        requires
            old(self).wf(),
        ensures
            final(self).wf(),
            final(self)@ == (CpuState {
                sp: word(old(self)@.h, old(self)@.l),
                ..old(self)@
            }),
            t == 6,
    {
        self.sp = self.get_addr_hl();
        6
    }

    /// PCHL: jumps to the address in HL.
    pub fn pchl(&mut self) -> (t: u8)
        requires
            old(self).wf(),
        ensures
            final(self).wf(),
            final(self)@ == (CpuState {
                pc: word(old(self)@.h, old(self)@.l),
                ..old(self)@
            }),
            t == 6,
    {
        self.pc = self.get_addr_hl();
        6
    }

    /// JMP: transfers to a direct address.
    pub fn jmp(&mut self) -> (r: Result<u8, EmuError>)
        requires
            old(self).wf(),
        ensures
            final(self).wf(),
            step_outcome(final(self)@, r, spec_jump(old(self)@, true)),
    {
        let (lo, hi) = match self.read_16bits() {
            Ok(v) => v,
            Err(e) => {
                return Err(e);
            },
        };
        self.pc = ((hi as u16) << 8) | (lo as u16);
        Ok(10)
    }

    /// A conditional jump: the two address bytes are consumed either
    /// way.
    pub fn jump_cond(&mut self, c: Cond) -> (r: Result<u8, EmuError>)
        requires
            old(self).wf(),
        ensures
            final(self).wf(),
            step_outcome(final(self)@, r, spec_jump(old(self)@, cond_holds(old(self)@, c))),
    {
        let (lo, hi) = match self.read_16bits() {
            Ok(v) => v,
            Err(e) => {
                return Err(e);
            },
        };
        if self.cond_exec(c) {
            self.pc = ((hi as u16) << 8) | (lo as u16);
            Ok(10)
        } else {
            Ok(7)
        }
    }

    /// CALL: pushes the return address and transfers to the target.
    pub fn call(&mut self) -> (r: Result<u8, EmuError>)
        requires
            old(self).wf(),
        ensures
            final(self).wf(),
            step_outcome(final(self)@, r, spec_call(old(self)@, true)),
    {
        let (lo, hi) = match self.read_16bits() {
            Ok(v) => v,
            Err(e) => {
                return Err(e);
            },
        };
        let pch = (self.pc >> 8) as u8;
        let pcl = (self.pc & 0xff) as u8;
        match self.push16(pch, pcl) {
            Ok(_) => {},
            Err(e) => {
                return Err(e);
            },
        }
        self.pc = ((hi as u16) << 8) | (lo as u16);
        Ok(18)
    }

    /// A conditional call: the two address bytes are consumed either
    /// way; only a taken call touches the stack.
    pub fn call_cond(&mut self, c: Cond) -> (r: Result<u8, EmuError>)
        requires
            old(self).wf(),
        ensures
            final(self).wf(),
            step_outcome(final(self)@, r, spec_call(old(self)@, cond_holds(old(self)@, c))),
    {
        let (lo, hi) = match self.read_16bits() {
            Ok(v) => v,
            Err(e) => {
                return Err(e);
            },
        };
        if self.cond_exec(c) {
            let pch = (self.pc >> 8) as u8;
            let pcl = (self.pc & 0xff) as u8;
            match self.push16(pch, pcl) {
                Ok(_) => {},
                Err(e) => {
                    return Err(e);
                },
            }
            self.pc = ((hi as u16) << 8) | (lo as u16);
            Ok(18)
        } else {
            Ok(9)
        }
    }

    /// RET: pops the return address into PC.
    pub fn ret(&mut self) -> (r: Result<u8, EmuError>)
        requires
            old(self).wf(),
        ensures
            final(self).wf(),
            step_outcome(final(self)@, r, spec_ret(old(self)@, true, 10, 10)),
    {
        let (lo, hi) = match self.pop16() {
            Ok(v) => v,
            Err(e) => {
                return Err(e);
            },
        };
        self.pc = ((hi as u16) << 8) | (lo as u16);
        Ok(10)
    }

    /// A conditional return: only a taken return touches the stack.
    pub fn ret_cond(&mut self, c: Cond) -> (r: Result<u8, EmuError>)
        requires
            old(self).wf(),
        ensures
            final(self).wf(),
            step_outcome(
                final(self)@,
                r,
                spec_ret(old(self)@, cond_holds(old(self)@, c), 12, 6),
            ),
    {
        if self.cond_exec(c) {
            let (lo, hi) = match self.pop16() {
                Ok(v) => v,
                Err(e) => {
                    return Err(e);
                },
            };
            self.pc = ((hi as u16) << 8) | (lo as u16);
            Ok(12)
        } else {
            Ok(6)
        }
    }

    /// RST n: pushes PC and jumps to eight times `n`.
    pub fn rst(&mut self, n: u8) -> (r: Result<u8, EmuError>)
        requires
            old(self).wf(),
            n < 8,
        ensures
            final(self).wf(),
            step_outcome(final(self)@, r, spec_rst(old(self)@, n)),
    {
        let pch = (self.pc >> 8) as u8;
        let pcl = (self.pc & 0xff) as u8;
        match self.push16(pch, pcl) {
            Ok(_) => {},
            Err(e) => {
                return Err(e);
            },
        }
        self.pc = (8 * n) as u16;
        Ok(12)
    }

    /// IN: the latch at the immediate port address into the
    /// accumulator.
    pub fn i_n(&mut self) -> (r: Result<u8, EmuError>)
        requires
            old(self).wf(),
        ensures
            final(self).wf(),
            step_outcome(final(self)@, r, spec_in(old(self)@)),
    {
        let addr = match self.read_8bits() {
            Ok(v) => v,
            Err(e) => {
                return Err(e);
            },
        };
        let v = self.read_io(addr);
        self.a = v;
        Ok(10)
    }

    /// OUT: the accumulator into the latch at the immediate port
    /// address.
    pub fn out(&mut self) -> (r: Result<u8, EmuError>)
        requires
            old(self).wf(),
        ensures
            final(self).wf(),
            step_outcome(final(self)@, r, spec_out(old(self)@)),
    {
        let addr = match self.read_8bits() {
            Ok(v) => v,
            Err(e) => {
                return Err(e);
            },
        };
        self.write_io(addr, self.a);
        Ok(10)
    }

    // --------------------------------------------------------------
    // Dispatch and the run loop
    // --------------------------------------------------------------

    /// The register pair selected by a 2-bit opcode field.
    fn pair_from_code(c: u8) -> (p: RegPair)
        requires
            c < 4,
        ensures
            p == pair_of_code(c),
    {
        if c == 0 {
            RegPair::BC
        } else if c == 1 {
            RegPair::DE
        } else if c == 2 {
            RegPair::HL
        } else {
            RegPair::SP
        }
    }

    /// The push/pop pair selected by a 2-bit opcode field.
    fn stack_pair_from_code(c: u8) -> (p: StackPair)
        requires
            c < 4,
        ensures
            p == stack_pair_of_code(c),
    {
        if c == 0 {
            StackPair::BC
        } else if c == 1 {
            StackPair::DE
        } else if c == 2 {
            StackPair::HL
        } else {
            StackPair::PSW
        }
    }

    /// The branch condition selected by a 3-bit opcode field.
    fn cond_from_code(c: u8) -> (x: Cond)
        requires
            c < 8,
        ensures
            x == cond_of_code(c),
    {
        if c == 0 {
            Cond::Nz
        } else if c == 1 {
            Cond::Z
        } else if c == 2 {
            Cond::Nc
        } else if c == 3 {
            Cond::C
        } else if c == 4 {
            Cond::Po
        } else if c == 5 {
            Cond::Pe
        } else if c == 6 {
            Cond::P
        } else {
            Cond::M
        }
    }

    /// Opcodes 0x00 to 0x3f.
    fn exec_low(&mut self, op: u8) -> (r: Result<u8, EmuError>)
        requires
            old(self).wf(),
            op < 0x40,
        ensures
            final(self).wf(),
            step_outcome(final(self)@, r, spec_exec_low(old(self)@, op)),
    {
        proof {
            lemma_opcode_fields(op);
        }
        let low3 = op & 7;
        if low3 == 0 {
            if op == 0x00 {
                Ok(self.nop())
            } else if op == 0x20 {
                Ok(self.rim())
            } else if op == 0x30 {
                Ok(self.sim())
            } else {
                Err(EmuError::UnimplementedOpcode(op))
            }
        } else if low3 == 1 {
            let p = Self::pair_from_code((op >> 4) & 3);
            if op & 8 == 0 {
                self.lxi(p)
            } else {
                Ok(self.dad(p))
            }
        } else if low3 == 2 {
            if op == 0x02 {
                self.stax_b()
            } else if op == 0x12 {
                self.stax_d()
            } else if op == 0x22 {
                self.shld()
            } else if op == 0x32 {
                self.sta()
            } else if op == 0x0a {
                self.ldax_b()
            } else if op == 0x1a {
                self.ldax_d()
            } else if op == 0x2a {
                self.lhld()
            } else {
                self.lda()
            }
        } else if low3 == 3 {
            let p = Self::pair_from_code((op >> 4) & 3);
            if op & 8 == 0 {
                Ok(self.inx(p))
            } else {
                Ok(self.dcx(p))
            }
        } else if low3 == 4 {
            let dd = (op >> 3) & 7;
            if dd == 6 {
                self.inr_m()
            } else {
                Ok(self.inr_r(Self::reg_from_code(dd)))
            }
        } else if low3 == 5 {
            let dd = (op >> 3) & 7;
            if dd == 6 {
                self.dcr_m()
            } else {
                Ok(self.dcr_r(Self::reg_from_code(dd)))
            }
        } else if low3 == 6 {
            let dd = (op >> 3) & 7;
            if dd == 6 {
                self.mvi_m()
            } else {
                self.mvi_r(Self::reg_from_code(dd))
            }
        } else {
            if op == 0x07 {
                Ok(self.rlc())
            } else if op == 0x0f {
                Ok(self.rrc())
            } else if op == 0x17 {
                Ok(self.ral())
            } else if op == 0x1f {
                Ok(self.rar())
            } else if op == 0x27 {
                Ok(self.daa())
            } else if op == 0x2f {
                Ok(self.cma())
            } else if op == 0x37 {
                Ok(self.stc())
            } else {
                Ok(self.cmc())
            }
        }
    }

    /// Opcodes 0x40 to 0x7f other than 0x76: the MOV block.
    fn exec_mov(&mut self, op: u8) -> (r: Result<u8, EmuError>)
        requires
            old(self).wf(),
            0x40 <= op < 0x80,
            op != 0x76,
        ensures
            final(self).wf(),
            step_outcome(final(self)@, r, spec_mov(old(self)@, (op >> 3) & 7, op & 7)),
    {
        proof {
            lemma_opcode_fields(op);
        }
        let dd = (op >> 3) & 7;
        let ss = op & 7;
        if ss == 6 {
            self.mov_r_m(Self::reg_from_code(dd))
        } else if dd == 6 {
            self.mov_m_r(Self::reg_from_code(ss))
        } else {
            Ok(self.mov_rr(Self::reg_from_code(dd), Self::reg_from_code(ss)))
        }
    }

    /// Opcodes 0x80 to 0xbf: the ALU block.
    fn exec_alu_block(&mut self, op: u8) -> (r: Result<u8, EmuError>)
        requires
            old(self).wf(),
            0x80 <= op < 0xc0,
        ensures
            final(self).wf(),
            step_outcome(final(self)@, r, spec_alu_op(old(self)@, (op >> 3) & 7, op & 7)),
    {
        proof {
            lemma_opcode_fields(op);
        }
        let fam = (op >> 3) & 7;
        let ss = op & 7;
        if ss == 6 {
            self.alu_m(fam)
        } else {
            Ok(self.alu_r(fam, Self::reg_from_code(ss)))
        }
    }

    /// Opcodes 0xc0 to 0xff.
    fn exec_high(&mut self, op: u8) -> (r: Result<u8, EmuError>)
        requires
            old(self).wf(),
            op >= 0xc0,
        ensures
            final(self).wf(),
            step_outcome(final(self)@, r, spec_exec_high(old(self)@, op)),
    {
        proof {
            lemma_opcode_fields(op);
        }
        let low3 = op & 7;
        if low3 == 0 {
            let c = Self::cond_from_code((op >> 3) & 7);
            self.ret_cond(c)
        } else if low3 == 1 {
            if op & 8 == 0 {
                self.pop(Self::stack_pair_from_code((op >> 4) & 3))
            } else if op == 0xc9 {
                self.ret()
            } else if op == 0xe9 {
                Ok(self.pchl())
            } else if op == 0xf9 {
                Ok(self.sphl())
            } else {
                Err(EmuError::UnimplementedOpcode(op))
            }
        } else if low3 == 2 {
            let c = Self::cond_from_code((op >> 3) & 7);
            self.jump_cond(c)
        } else if low3 == 3 {
            if op == 0xc3 {
                self.jmp()
            } else if op == 0xd3 {
                self.out()
            } else if op == 0xdb {
                self.i_n()
            } else if op == 0xe3 {
                self.xthl()
            } else if op == 0xeb {
                Ok(self.xchg())
            } else if op == 0xf3 {
                Ok(self.di())
            } else if op == 0xfb {
                Ok(self.ei())
            } else {
                Err(EmuError::UnimplementedOpcode(op))
            }
        } else if low3 == 4 {
            let c = Self::cond_from_code((op >> 3) & 7);
            self.call_cond(c)
        } else if low3 == 5 {
            if op & 8 == 0 {
                self.push(Self::stack_pair_from_code((op >> 4) & 3))
            } else if op == 0xcd {
                self.call()
            } else {
                Err(EmuError::UnimplementedOpcode(op))
            }
        } else if low3 == 6 {
            self.alu_i((op >> 3) & 7)
        } else {
            self.rst((op >> 3) & 7)
        }
    }

    /// Selects and executes the handler for the opcode in IR,
    /// returning its T-state count.
    pub fn decode_and_run(&mut self) -> (r: Result<u8, EmuError>)
        requires
            old(self).wf(),
        ensures
            final(self).wf(),
            step_outcome(final(self)@, r, spec_exec_op(old(self)@, old(self)@.ir)),
    {
        proof {
            reveal(spec_exec_op);
        }
        let op = self.ir;
        if op == 0x76 {
            Ok(self.hlt())
        } else if op >= 0x40 && op < 0x80 {
            self.exec_mov(op)
        } else if op >= 0x80 && op < 0xc0 {
            self.exec_alu_block(op)
        } else if op < 0x40 {
            self.exec_low(op)
        } else {
            self.exec_high(op)
        }
    }

    /// One full fetch-decode-execute cycle.
    fn step_once(&mut self) -> (r: Result<u8, EmuError>)
        requires
            old(self).wf(),
        ensures
            final(self).wf(),
            step_outcome(final(self)@, r, spec_step(old(self)@)),
    {
        let op = match self.read_8bits() {
            Ok(v) => v,
            Err(e) => {
                return Err(e);
            },
        };
        self.ir = op;
        self.decode_and_run()
    }

    /// Executes one instruction, unless the CPU is halted; the
    /// pending-cycle counter is not consulted.
    pub fn run_next(&mut self) -> (r: Result<(), EmuError>)
        requires
            old(self).wf(),
        ensures
            final(self).wf(),
            old(self)@.hlt ==> r == Ok::<(), EmuError>(()) && final(self)@ == old(self)@,
            !old(self)@.hlt ==> match spec_step(old(self)@) {
                Ok((s2, _t)) => r == Ok::<(), EmuError>(()) && final(self)@ == s2,
                Err(e) => r == Err::<(), EmuError>(e),
            },
    {
        if self.hlt {
            return Ok(());
        }
        match self.step_once() {
            Ok(_) => Ok(()),
            Err(e) => Err(e),
        }
    }

    /// Runs until the halt latch is set, pacing instructions with the
    /// pending-cycle counter, or stops at the first fault.  On success
    /// the final state is a halted state that the model reaches from
    /// the starting state in some number of steps.  Success is owed:
    /// whenever the model halts within [`RUN_HALT_BOUND`] steps the
    /// run returns `Ok`, and any fault other than the tick budget is
    /// exactly a fault the model itself reaches.
    pub fn run(&mut self) -> (r: Result<(), EmuError>)
        requires
            old(self).wf(),
        ensures
            final(self).wf(),
            r is Ok ==> final(self)@.hlt,
            r is Ok ==> exists|n: nat| spec_run_n(old(self)@, n) == Some(final(self)@),
            (exists|n: nat|
                n <= RUN_HALT_BOUND && ((#[trigger] spec_run_n(old(self)@, n)) matches Some(u)
                    && u.hlt)) ==> r is Ok,
            (r is Err && r->Err_0 != EmuError::StepLimit) ==> exists|n: nat|
                (#[trigger] spec_run_n(old(self)@, n)) matches Some(u) && !u.hlt && spec_step(u)
                    == Err::<StepOk, EmuError>(r->Err_0),
    {
        let ghost s0 = old(self)@;
        let ghost c0 = old(self).cycles as int;
        let ghost mut steps: nat = 0;
        proof {
            assert(spec_run_n(s0, 0) == Some(s0));
        }
        let mut budget: u64 = u64::MAX;
        while !self.hlt
            invariant
                self.wf(),
                s0 == old(self)@,
                c0 == old(self).cycles as int,
                spec_run_n(s0, steps) == Some(self@),
                budget as int >= 0xffffffffffffffff - c0 - 255 * (steps as int)
                    + self.cycles as int,
            decreases budget,
        {
            if budget == 0 {
                proof {
                    // The budget runs out only after far more steps
                    // than the guarantee covers; a program halting
                    // within the bound would have stopped the loop.
                    assert(255 * (steps as int) >= 0xffffffffffffffff - c0 - self.cycles as int);
                    assert(steps > RUN_HALT_BOUND);
                    if exists|n: nat|
                        n <= RUN_HALT_BOUND && ((#[trigger] spec_run_n(s0, n)) matches Some(u)
                            && u.hlt) {
                        let n = choose|n: nat|
                            n <= RUN_HALT_BOUND && ((#[trigger] spec_run_n(s0, n)) matches Some(
                                u,
                            ) && u.hlt);
                        let u = spec_run_n(s0, n)->Some_0;
                        lemma_halted_stays(s0, n, steps, u);
                        assert(false);
                    }
                }
                return Err(EmuError::StepLimit);
            }
            budget = budget - 1;
            if self.cycles == 0 {
                let ghost pre = self@;
                let t = match self.step_once() {
                    Ok(t) => t,
                    Err(e) => {
                        proof {
                            // The fault is the model's own, at the
                            // state reached after `steps` steps; a
                            // model that faults on its straight line
                            // never reaches a halted state, so no
                            // success is owed.
                            assert((#[trigger] spec_run_n(s0, steps)) matches Some(u) && !u.hlt
                                && spec_step(u) == Err::<StepOk, EmuError>(e));
                            if exists|n: nat|
                                n <= RUN_HALT_BOUND && ((#[trigger] spec_run_n(s0, n)) matches Some(
                                    u,
                                ) && u.hlt) {
                                let n = choose|n: nat|
                                    n <= RUN_HALT_BOUND && ((#[trigger] spec_run_n(
                                        s0,
                                        n,
                                    )) matches Some(u) && u.hlt);
                                let u = spec_run_n(s0, n)->Some_0;
                                if n <= steps {
                                    lemma_halted_stays(s0, n, steps, u);
                                } else {
                                    lemma_fault_stays(s0, steps, n, pre);
                                }
                                assert(false);
                            }
                        }
                        return Err(e);
                    },
                };
                proof {
                    lemma_run_n_extend(s0, steps, pre, self@, t);
                    steps = steps + 1;
                }
                self.cycles = t as u32;
            }
            if self.cycles > 0 {
                self.cycles = self.cycles - 1;
            }
        }
        Ok(())
    }
}

/// The 3-bit and 2-bit fields of an opcode stay in range, and the MOV
/// block's only all-memory combination is the HLT encoding.
proof fn lemma_opcode_fields(op: u8)
    ensures
        (op >> 3) & 7 < 8,
        (op >> 4) & 3 < 4,
        op & 7 < 8,
        (0x40 <= op && op < 0x80 && op & 7 == 6 && (op >> 3) & 7 == 6) ==> op == 0x76,
{
    assert((op >> 3) & 7 < 8 && (op >> 4) & 3 < 4 && op & 7 < 8 && ((0x40 <= op && op < 0x80 && op
        & 7 == 6 && (op >> 3) & 7 == 6) ==> op == 0x76)) by (bit_vector);
}

} // verus!
