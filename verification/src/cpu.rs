use vstd::prelude::*;

use crate::cartridge::Cartridge;
use crate::cartridge::MIN_ROM_LEN;
use crate::flags_register::FlagsRegister;
use crate::gpu::VRAM_SIZE;
use crate::instruction::Flag;
use crate::instruction::Instruction;
use crate::instruction::Mnemonic;
use crate::instruction::Target;
use crate::instruction::is_byte_target;
use crate::instruction::is_pair_target;
use crate::instruction::spec_from_byte;
use crate::instruction::wf_mnemonic;
use crate::memory_bus::BusState;
use crate::memory_bus::MemoryBus;
use crate::memory_bus::WRAM_END;
use crate::memory_bus::WRAM_SIZE;
use crate::memory_bus::WRAM_START;
use crate::program_counter::ENTRY_POINT;
use crate::program_counter::ProgramCounter;
use crate::registers::Registers;

verus! {

/// Header byte whose value selects the power-on flags preset.
pub const HEADER_CHECKSUM_ADDRESS: usize = 0x014D;

/// The stack pointer's power-on value.
pub const STACK_POINTER_START: u16 = 0xFFFE;

/// A coverage fault: the engine met a value its tables do not implement
/// yet. Skipping it would desynchronize all later counter-relative
/// behavior, so the caller must stop and surface the named value.
#[derive(Clone, Copy, Debug, PartialEq, Eq, Structural)]
pub enum Fault {
    /// The primary decode table has no entry for this opcode byte.
    UnknownOpcode(u8),
    /// The dispatch has no handler for this decoded operation.
    UnhandledOperation(Mnemonic),
}

/// The abstract machine state the contracts speak of: the register file,
/// the program counter, the stack pointer, and the bus with its stores.
#[verifier::ext_equal]
pub struct CpuState {
    pub registers: Registers,
    pub pc: u16,
    pub sp: u16,
    pub bus: BusState,
}

/// Whether the flag a conditional opcode encodes is set.
pub open spec fn spec_flag_set(s: CpuState, flag: Flag) -> bool {
    match flag {
        Flag::Z => s.registers.f.zero,
        Flag::N => s.registers.f.subtract,
        Flag::H => s.registers.f.half_carry,
        Flag::C => s.registers.f.carry,
    }
}

/// A displacement byte read as a signed two's-complement value.
pub open spec fn rel8(byte: u8) -> int {
    if byte < 128 {
        byte as int
    } else {
        byte - 256
    }
}

/// Restart: push the already-advanced return address (low byte at the
/// decremented stack pointer, high byte one above it) and jump to the fixed
/// vector the opcode encodes.
pub open spec fn spec_rst(s: CpuState, address: u16) -> CpuState {
    let sp2 = ((s.sp - 2) % 0x10000) as u16;
    let low = (s.pc % 256) as u8;
    let high = (s.pc / 256) as u8;
    let bus = s.bus.spec_write(sp2, low).spec_write(((sp2 + 1) % 0x10000) as u16, high);
    CpuState { sp: sp2, pc: address, bus, ..s }
}

/// Unconditional jump to the absolute address given by the two little-endian
/// operand bytes.
pub open spec fn spec_jp_nn(s: CpuState) -> CpuState {
    let low = s.bus.spec_read(s.pc);
    let pc1 = ((s.pc + 1) % 0x10000) as u16;
    let high = s.bus.spec_read(pc1);
    CpuState { pc: (high * 256 + low) as u16, ..s }
}

/// Conditional relative jump: consume one signed operand byte; if the
/// encoded flag is set, add the displacement to the already-advanced
/// counter, else leave the counter at the operand consumption alone.
pub open spec fn spec_jr_cc_e(s: CpuState, flag: Flag) -> CpuState {
    let e = s.bus.spec_read(s.pc);
    let pc1 = ((s.pc + 1) % 0x10000) as u16;
    if spec_flag_set(s, flag) {
        CpuState { pc: ((pc1 + rel8(e)) % 0x10000) as u16, ..s }
    } else {
        CpuState { pc: pc1, ..s }
    }
}

/// Immediate compare: subtract the operand byte from A without storing;
/// Zero holds exactly when they are equal, Subtract is always set,
/// HalfCarry compares the low nibbles, Carry the full bytes, unsigned.
pub open spec fn spec_cp_n(s: CpuState) -> CpuState {
    let n = s.bus.spec_read(s.pc);
    let a = s.registers.a;
    let f = FlagsRegister {
        zero: a == n,
        subtract: true,
        half_carry: a % 16 < n % 16,
        carry: a < n,
    };
    CpuState {
        pc: ((s.pc + 1) % 0x10000) as u16,
        registers: Registers { f, ..s.registers },
        ..s
    }
}

/// Pair increment: add 1 to the 16-bit pair modulo 65536; no flags touched.
pub open spec fn spec_inc_pair(s: CpuState, target: Target) -> CpuState
    recommends
        is_pair_target(target),
{
    let v = s.registers.spec_get_pair(target);
    CpuState { registers: s.registers.spec_set_pair(target, ((v + 1) % 0x10000) as u16), ..s }
}

/// XOR with register: A becomes A xor r; Zero follows the result, the
/// other three flags are forced clear.
pub open spec fn spec_xor_reg(s: CpuState, target: Target) -> CpuState
    recommends
        is_byte_target(target),
{
    let result = s.registers.a ^ s.registers.spec_get_register(target);
    CpuState {
        registers: Registers {
            a: result,
            f: FlagsRegister { zero: result == 0, subtract: false, half_carry: false, carry: false },
            ..s.registers
        },
        ..s
    }
}

/// Pair-addressed store: write the source register's byte at the address a
/// pair holds.
pub open spec fn spec_ld_reg_pair(s: CpuState, pair_target: Target, reg_target: Target) -> CpuState
    recommends
        is_pair_target(pair_target),
        is_byte_target(reg_target),
{
    let address = s.registers.spec_get_pair(pair_target);
    let value = s.registers.spec_get_register(reg_target);
    CpuState { bus: s.bus.spec_write(address, value), ..s }
}

/// Pair-addressed load: read the byte at the address a pair holds into the
/// destination register.
pub open spec fn spec_ld_pair_reg(s: CpuState, reg_target: Target, pair_target: Target) -> CpuState
    recommends
        is_byte_target(reg_target),
        is_pair_target(pair_target),
{
    let address = s.registers.spec_get_pair(pair_target);
    let value = s.bus.spec_read(address);
    CpuState { registers: s.registers.spec_set_register(reg_target, value), ..s }
}

/// Immediate load: consume one operand byte and write it to the target
/// register.
pub open spec fn spec_load_next_to_reg(s: CpuState, target: Target) -> CpuState
    recommends
        is_byte_target(target),
{
    let byte = s.bus.spec_read(s.pc);
    CpuState {
        pc: ((s.pc + 1) % 0x10000) as u16,
        registers: s.registers.spec_set_register(target, byte),
        ..s
    }
}

/// The dispatch relation: the machine state one decoded operation produces,
/// or `None` for an operation the engine does not handle yet.
pub open spec fn spec_execute(s: CpuState, m: Mnemonic) -> Option<CpuState> {
    match m {
        Mnemonic::NOP => Option::Some(s),
        Mnemonic::RST(address) => Option::Some(spec_rst(s, address)),
        Mnemonic::JP_nn => Option::Some(spec_jp_nn(s)),
        Mnemonic::CP_n => Option::Some(spec_cp_n(s)),
        Mnemonic::INC_rr(target) => Option::Some(spec_inc_pair(s, target)),
        Mnemonic::XOR_r(target) => Option::Some(spec_xor_reg(s, target)),
        Mnemonic::LD_rr_r(pair_target, reg_target) => Option::Some(
            spec_ld_reg_pair(s, pair_target, reg_target),
        ),
        Mnemonic::LD_r_rr(reg_target, pair_target) => Option::Some(
            spec_ld_pair_reg(s, reg_target, pair_target),
        ),
        Mnemonic::LD_r_n(target) => Option::Some(spec_load_next_to_reg(s, target)),
        Mnemonic::JR_c_e(flag) => Option::Some(spec_jr_cc_e(s, flag)),
        _ => Option::None,
    }
}

/// One full fetch-decode-execute step from a machine state: the state it
/// leaves, and the fault it stops on, if any. A fault leaves the machine
/// exactly as the opcode fetch left it.
pub open spec fn spec_step(s: CpuState) -> (CpuState, Result<(), Fault>) {
    let opcode = s.bus.spec_read(s.pc);
    let fetched = CpuState { pc: ((s.pc + 1) % 0x10000) as u16, ..s };
    match spec_from_byte(opcode) {
        Option::Some(instruction) => match spec_execute(fetched, instruction.mnemonic) {
            Option::Some(s2) => (s2, Result::Ok(())),
            Option::None => (
                fetched,
                Result::Err(Fault::UnhandledOperation(instruction.mnemonic)),
            ),
        },
        Option::None => (fetched, Result::Err(Fault::UnknownOpcode(opcode))),
    }
}

/// The machine state right after power-on with the given ROM image: the
/// documented post-boot registers, the flags preset selected by the header
/// checksum byte, counter at the entry point, stack pointer at its start,
/// and a freshly built cartridge behind zeroed video and work RAM.
pub open spec fn spec_boot(rom: Seq<u8>) -> CpuState
    recommends
        rom.len() >= MIN_ROM_LEN,
{
    let enable_flags = rom[HEADER_CHECKSUM_ADDRESS as int] != 0x00;
    CpuState {
        registers: Registers {
            a: 0x01,
            b: 0x00,
            c: 0x13,
            d: 0x00,
            e: 0xD8,
            f: FlagsRegister {
                zero: false,
                subtract: false,
                half_carry: enable_flags,
                carry: enable_flags,
            },
            h: 0x01,
            l: 0x4D,
        },
        pc: ENTRY_POINT,
        sp: STACK_POINTER_START,
        bus: BusState {
            cartridge: Cartridge::spec_build(rom),
            vram: Seq::new(VRAM_SIZE as nat, |i: int| 0u8),
            wram: Seq::new(WRAM_SIZE as nat, |i: int| 0u8),
        },
    }
}

/// The execution engine. It owns the register file, the program counter,
/// the stack pointer and the memory bus, and mutates them one instruction
/// at a time; no partial-instruction state is observable between calls.
pub struct Cpu {
    pub memory_bus: MemoryBus,
    pub registers: Registers,
    pub program_counter: ProgramCounter,
    pub stack_pointer: u16,
}

impl View for Cpu {
    type V = CpuState;

    open spec fn view(&self) -> CpuState {
        CpuState {
            registers: self.registers,
            pc: self.program_counter.value,
            sp: self.stack_pointer,
            bus: self.memory_bus@,
        }
    }
}

impl Cpu {
    pub open spec fn wf(self) -> bool {
        self.memory_bus.wf()
    }

    /// Powers the machine on around a raw ROM image. The image must reach
    /// past the header; the byte at the header checksum address selects the
    /// initial flags preset.
    pub fn new(rom_data: Vec<u8>) -> (r: Cpu)
        requires
            rom_data@.len() >= MIN_ROM_LEN,
        ensures
            r.wf(),
            r@ == spec_boot(rom_data@),
    {
        // If the header checksum is 0x00, the carry and half-carry flags
        // start clear; otherwise both start set
        let enable_flags = rom_data[HEADER_CHECKSUM_ADDRESS] != 0x00;
        let ghost rom = rom_data@;

        let cpu = Cpu {
            memory_bus: MemoryBus::new(rom_data),
            registers: Registers::new(enable_flags),
            program_counter: ProgramCounter::new(),
            stack_pointer: STACK_POINTER_START,
        };
        proof {
            assert(cpu@ =~~= spec_boot(rom));
        }
        cpu
    }

    /// One fetch-decode-execute step: read the opcode byte at the counter
    /// (advancing it), decode it, and dispatch. A coverage fault is
    /// returned, never skipped, and leaves the machine as the fetch left
    /// it.
    pub fn step(&mut self) -> (r: Result<(), Fault>)
        requires
            old(self).wf(),
        ensures
            final(self).wf(),
            final(self)@ == spec_step(old(self)@).0,
            r == spec_step(old(self)@).1,
    {
        let address = self.program_counter.next();
        let byte = self.memory_bus.read_byte(address);
        match Instruction::from_byte(byte) {
            Option::Some(instruction) => self.execute_instruction(instruction),
            Option::None => Result::Err(Fault::UnknownOpcode(byte)),
        }
    }

    /// Dispatches one decoded instruction over the closed tag set. An
    /// operation outside the handled set is a coverage fault that names the
    /// tag and leaves the machine unchanged.
    pub fn execute_instruction(&mut self, instruction: Instruction) -> (r: Result<(), Fault>)
        requires
            old(self).wf(),
            wf_mnemonic(instruction.mnemonic),
        ensures
            final(self).wf(),
            match spec_execute(old(self)@, instruction.mnemonic) {
                Option::Some(s2) => r == Result::<(), Fault>::Ok(()) && final(self)@ == s2,
                Option::None => r == Result::<(), Fault>::Err(
                    Fault::UnhandledOperation(instruction.mnemonic),
                ) && final(self)@ == old(self)@,
            },
    {
        match instruction.mnemonic {
            Mnemonic::NOP => Result::Ok(()),
            Mnemonic::RST(address) => {
                self.rst(address);
                Result::Ok(())
            },
            Mnemonic::JP_nn => {
                self.jp_nn();
                Result::Ok(())
            },
            Mnemonic::CP_n => {
                self.cp_n();
                Result::Ok(())
            },
            Mnemonic::INC_rr(target) => {
                self.inc_pair(target);
                Result::Ok(())
            },
            Mnemonic::XOR_r(target) => {
                self.xor_reg(target);
                Result::Ok(())
            },
            Mnemonic::LD_rr_r(pair_target, reg_target) => {
                self.ld_reg_pair(pair_target, reg_target);
                Result::Ok(())
            },
            Mnemonic::LD_r_rr(reg_target, pair_target) => {
                self.ld_pair_reg(reg_target, pair_target);
                Result::Ok(())
            },
            Mnemonic::LD_r_n(target) => {
                self.load_next_to_reg(target);
                Result::Ok(())
            },
            Mnemonic::JR_c_e(flag) => {
                self.jr_cc_e(flag);
                Result::Ok(())
            },
            _ => Result::Err(Fault::UnhandledOperation(instruction.mnemonic)),
        }
    }

    // --- Misc instructions ---

    /// Unconditional call to the fixed vector the opcode encodes, pushing
    /// the already-advanced return address.
    pub fn rst(&mut self, address: u16)
        requires
            old(self).wf(),
        ensures
            final(self).wf(),
            final(self)@ == spec_rst(old(self)@, address),
    {
        self.stack_pointer = self.stack_pointer.wrapping_sub(2);

        let pc = self.program_counter.next();
        let high_byte = (pc / 256) as u8;
        let low_byte = (pc % 256) as u8;

        self.memory_bus.write_byte(self.stack_pointer, low_byte);
        self.memory_bus.write_byte(self.stack_pointer.wrapping_add(1), high_byte);

        self.program_counter.set(address);
    }

    // --- Jump instructions ---

    /// Unconditional jump to the absolute address given by the two
    /// little-endian immediate operand bytes.
    pub fn jp_nn(&mut self)
        requires
            old(self).wf(),
        ensures
            final(self).wf(),
            final(self)@ == spec_jp_nn(old(self)@),
    {
        let low_address = self.program_counter.next();
        let low_byte = self.memory_bus.read_byte(low_address) as u16;
        let high_address = self.program_counter.next();
        let high_byte = self.memory_bus.read_byte(high_address) as u16;
        let address = high_byte * 256 + low_byte;

        self.program_counter.set(address);
    }

    /// Conditional jump by the signed immediate displacement, taken exactly
    /// when the flag the opcode encodes is set.
    pub fn jr_cc_e(&mut self, flag: Flag)
        requires
            old(self).wf(),
        ensures
            final(self).wf(),
            final(self)@ == spec_jr_cc_e(old(self)@, flag),
    {
        let address = self.program_counter.next();
        let value = self.memory_bus.read_byte(address);

        let flag_set = match flag {
            Flag::Z => self.registers.f.get_zero(),
            Flag::N => self.registers.f.get_subtract(),
            Flag::H => self.registers.f.get_half_carry(),
            Flag::C => self.registers.f.get_carry(),
        };

        if flag_set {
            if value < 128 {
                self.program_counter.relative_jump(value as i8);
            } else {
                self.program_counter.relative_jump((value as i16 - 256) as i8);
            }
        }
    }

    // --- Compare instructions ---

    /// Compares A against the immediate operand byte by subtraction without
    /// storing the result; all four flags are overwritten atomically.
    pub fn cp_n(&mut self)
        requires
            old(self).wf(),
        ensures
            final(self).wf(),
            final(self)@ == spec_cp_n(old(self)@),
    {
        let address = self.program_counter.next();
        let byte = self.memory_bus.read_byte(address);
        let a = self.registers.get_a();

        let zero = a.wrapping_sub(byte) == 0;
        let half_carry = (a % 16) < (byte % 16);
        let carry = a < byte;

        self.registers.f.set_flags(zero, true, half_carry, carry);
    }

    // --- Increment instructions ---

    /// Increments the 16-bit target pair by 1 modulo 65536; flags untouched.
    pub fn inc_pair(&mut self, target: Target)
        requires
            old(self).wf(),
            is_pair_target(target),
        ensures
            final(self).wf(),
            final(self)@ == spec_inc_pair(old(self)@, target),
    {
        let value = self.registers.get_pair_value(&target);
        self.registers.set_pair_value(&target, value.wrapping_add(1));
    }

    // --- XOR instructions ---

    /// XORs the target register into A and rewrites all four flags.
    pub fn xor_reg(&mut self, target: Target)
        requires
            old(self).wf(),
            is_byte_target(target),
        ensures
            final(self).wf(),
            final(self)@ == spec_xor_reg(old(self)@, target),
    {
        let a = self.registers.get_a();
        let value = self.registers.get_register_value(&target);

        let result = a ^ value;
        let flag = result == 0;

        self.registers.set_a(result);
        self.registers.f.set_flags(flag, false, false, false);
    }

    // --- Load instructions ---

    /// Stores the source register's byte at the address the pair holds.
    pub fn ld_reg_pair(&mut self, pair_target: Target, reg_target: Target)
        requires
            old(self).wf(),
            is_pair_target(pair_target),
            is_byte_target(reg_target),
        ensures
            final(self).wf(),
            final(self)@ == spec_ld_reg_pair(old(self)@, pair_target, reg_target),
    {
        let address = self.registers.get_pair_value(&pair_target);
        let value = self.registers.get_register_value(&reg_target);
        self.memory_bus.write_byte(address, value);
    }

    /// Loads the destination register from the address the pair holds.
    pub fn ld_pair_reg(&mut self, reg_target: Target, pair_target: Target)
        requires
            old(self).wf(),
            is_byte_target(reg_target),
            is_pair_target(pair_target),
        ensures
            final(self).wf(),
            final(self)@ == spec_ld_pair_reg(old(self)@, reg_target, pair_target),
    {
        let address = self.registers.get_pair_value(&pair_target);
        let value = self.memory_bus.read_byte(address);
        self.registers.set_register_value(&reg_target, value);
    }

    /// Loads the immediate operand byte into the target register.
    pub fn load_next_to_reg(&mut self, target: Target)
        requires
            old(self).wf(),
            is_byte_target(target),
        ensures
            final(self).wf(),
            final(self)@ == spec_load_next_to_reg(old(self)@, target),
    {
        let address = self.program_counter.next();
        let byte = self.memory_bus.read_byte(address);
        self.registers.set_register_value(&target, byte);
    }
}

/// Law: XOR of A with itself always zeroes A and leaves exactly the Zero
/// flag set, in every machine state.
pub proof fn lemma_xor_a_zeroes(s: CpuState)
    ensures
        spec_xor_reg(s, Target::A).registers.a == 0,
        spec_xor_reg(s, Target::A).registers.f == (FlagsRegister {
            zero: true,
            subtract: false,
            half_carry: false,
            carry: false,
        }),
{
    let a = s.registers.a;
    assert(a ^ a == 0) by (bit_vector);
}

/// Law: restart pushes a return address that reads back exactly. After the
/// push, the byte at the stack pointer is the low half and the byte above
/// it the high half of the pre-restart counter, and the stack pointer has
/// decreased by exactly 2 modulo 65536. Stated for a stack that lives in
/// work RAM; a stack outside every wired range drops the written bytes, so
/// nothing could read them back.
pub proof fn lemma_rst_round_trip(s: CpuState, address: u16)
    requires
        s.bus.wf(),
        WRAM_START <= (s.sp - 2) % 0x10000,
        (s.sp - 2) % 0x10000 + 1 <= WRAM_END,
    ensures
        spec_rst(s, address).sp == (s.sp - 2) % 0x10000,
        spec_rst(s, address).bus.spec_read(spec_rst(s, address).sp) + 256 * spec_rst(
            s,
            address,
        ).bus.spec_read((spec_rst(s, address).sp + 1) as u16) == s.pc,
        spec_rst(s, address).pc == address,
{
    let sp2 = ((s.sp - 2) % 0x10000) as u16;
    let low = (s.pc % 256) as u8;
    let high = (s.pc / 256) as u8;
    let bus1 = s.bus.spec_write(sp2, low);
    let bus2 = bus1.spec_write((sp2 + 1) as u16, high);
    assert(bus2.spec_read(sp2) == low);
    assert(bus2.spec_read((sp2 + 1) as u16) == high);
    assert(low + 256 * high == s.pc);
}

} // verus!
