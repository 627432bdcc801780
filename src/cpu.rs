use vstd::prelude::*;

verus! {

/// Processor operating mode of the ARM7TDMI.
#[derive(Clone, Copy, Debug, PartialEq, Eq, Structural)]
pub enum CPUMode {
    /// User.
    Usr,
    /// Fast interrupt.
    Fiq,
    /// Interrupt.
    Irq,
    /// Supervisor.
    Svc,
    /// Abort.
    Abt,
    /// Undefined instruction.
    Und,
    /// System.
    Sys,
}

/// The architectural 5-bit encoding of a mode in the status register.
pub open spec fn mode_bits(m: CPUMode) -> u32 {
    match m {
        CPUMode::Usr => 0b10000,
        CPUMode::Fiq => 0b10001,
        CPUMode::Irq => 0b10010,
        CPUMode::Svc => 0b10011,
        CPUMode::Abt => 0b10111,
        CPUMode::Und => 0b11011,
        CPUMode::Sys => 0b11111,
    }
}

/// Decoding of a mode field: the value's low eight bits are compared with each
/// mode's encoding, and any value that matches none decodes to `Und`.
pub open spec fn decode_mode(val: u32) -> CPUMode {
    let b = (val as u8) as u32;
    if b == 0b10000 {
        CPUMode::Usr
    } else if b == 0b10001 {
        CPUMode::Fiq
    } else if b == 0b10010 {
        CPUMode::Irq
    } else if b == 0b10011 {
        CPUMode::Svc
    } else if b == 0b10111 {
        CPUMode::Abt
    } else if b == 0b11111 {
        CPUMode::Sys
    } else {
        CPUMode::Und
    }
}

/// Index of the register bank a mode selects; `Usr` and `Sys` share bank 0.
pub open spec fn bank_of(m: CPUMode) -> nat {
    match m {
        CPUMode::Usr | CPUMode::Sys => 0,
        CPUMode::Fiq => 1,
        CPUMode::Svc => 2,
        CPUMode::Abt => 3,
        CPUMode::Irq => 4,
        CPUMode::Und => 5,
    }
}

impl CPUMode {
    /// The mode's 5-bit encoding.
    pub fn bits(self) -> (r: u32)
        ensures
            r == mode_bits(self),
    {
        match self {
            CPUMode::Usr => 0b10000,
            CPUMode::Fiq => 0b10001,
            CPUMode::Irq => 0b10010,
            CPUMode::Svc => 0b10011,
            CPUMode::Abt => 0b10111,
            CPUMode::Und => 0b11011,
            CPUMode::Sys => 0b11111,
        }
    }
}

/// Decodes a mode field; see `decode_mode`.
impl From<u32> for CPUMode {
    fn from(val: u32) -> (r: CPUMode) {
        let b = val as u8;
        if b == 0b10000 {
            CPUMode::Usr
        } else if b == 0b10001 {
            CPUMode::Fiq
        } else if b == 0b10010 {
            CPUMode::Irq
        } else if b == 0b10011 {
            CPUMode::Svc
        } else if b == 0b10111 {
            CPUMode::Abt
        } else if b == 0b11111 {
            CPUMode::Sys
        } else {
            CPUMode::Und
        }
    }
}

impl vstd::std_specs::convert::FromSpecImpl<u32> for CPUMode {
    open spec fn obeys_from_spec() -> bool {
        true
    }

    open spec fn from_spec(val: u32) -> CPUMode {
        decode_mode(val)
    }
}

/// The register bank a mode selects; see `bank_of`.
impl From<CPUMode> for usize {
    fn from(value: CPUMode) -> (r: usize) {
        match value {
            CPUMode::Usr | CPUMode::Sys => 0,
            CPUMode::Fiq => 1,
            CPUMode::Svc => 2,
            CPUMode::Abt => 3,
            CPUMode::Irq => 4,
            CPUMode::Und => 5,
        }
    }
}

impl vstd::std_specs::convert::FromSpecImpl<CPUMode> for usize {
    open spec fn obeys_from_spec() -> bool {
        true
    }

    open spec fn from_spec(value: CPUMode) -> usize {
        bank_of(value) as usize
    }
}

/// Decoding a mode field is total and faithful: a 5-bit value decodes to the
/// mode it encodes, or to `Und` when it encodes none; each mode's encoding
/// decodes back to that mode; and two encodings that decode alike are equal.
pub proof fn lemma_mode_decode(val: u32, m1: CPUMode, m2: CPUMode)
    requires
        val < 32,
    ensures
        (exists|m: CPUMode| mode_bits(m) == val && decode_mode(val) == m)
            || decode_mode(val) == CPUMode::Und,
        decode_mode(mode_bits(m1)) == m1,
        decode_mode(mode_bits(m1)) == decode_mode(mode_bits(m2)) ==> mode_bits(m1) == mode_bits(m2),
{
    let d = decode_mode(val);
    if d != CPUMode::Und {
        assert(mode_bits(d) == val && decode_mode(val) == d);
    }
}

/// Marker for values that live in a processor register.
pub trait Register {}

impl Register for u32 {}

/// Whether bit `k` of `w` is set.
pub open spec fn bit_set(w: u32, k: u32) -> bool {
    (w >> k) & 1 == 1
}

/// Bit 31 of a status word: negative.
pub open spec fn flag_n(w: u32) -> bool { bit_set(w, 31) }
/// Bit 30 of a status word: zero.
pub open spec fn flag_z(w: u32) -> bool { bit_set(w, 30) }
/// Bit 29 of a status word: carry.
pub open spec fn flag_c(w: u32) -> bool { bit_set(w, 29) }
/// Bit 28 of a status word: overflow.
pub open spec fn flag_v(w: u32) -> bool { bit_set(w, 28) }
/// Bit 7 of a status word: IRQ disabled.
pub open spec fn flag_i(w: u32) -> bool { bit_set(w, 7) }
/// Bit 6 of a status word: FIQ disabled.
pub open spec fn flag_f(w: u32) -> bool { bit_set(w, 6) }
/// Bit 5 of a status word: Thumb state.
pub open spec fn flag_t(w: u32) -> bool { bit_set(w, 5) }

/// The mode held in bits 4..0 of a status word.
pub open spec fn psr_mode(w: u32) -> CPUMode {
    decode_mode(w & 0x1f)
}

/// Read-only queries on a program status register value. The flags are bit
/// views of the one word `psr_word`; nothing is stored beside it.
pub trait PSR: Register {
    /// The raw 32-bit status word.
    spec fn psr_word(&self) -> u32;

    /// Negative flag.
    fn n(&self) -> (r: bool)
        ensures
            r == flag_n(self.psr_word()),
    ;

    /// Zero flag.
    fn z(&self) -> (r: bool)
        ensures
            r == flag_z(self.psr_word()),
    ;

    /// Carry flag.
    fn c(&self) -> (r: bool)
        ensures
            r == flag_c(self.psr_word()),
    ;

    /// Overflow flag.
    fn v(&self) -> (r: bool)
        ensures
            r == flag_v(self.psr_word()),
    ;

    /// IRQ-disable flag.
    fn i(&self) -> (r: bool)
        ensures
            r == flag_i(self.psr_word()),
    ;

    /// FIQ-disable flag.
    fn f(&self) -> (r: bool)
        ensures
            r == flag_f(self.psr_word()),
    ;

    /// Thumb-state flag.
    fn t(&self) -> (r: bool)
        ensures
            r == flag_t(self.psr_word()),
    ;

    /// Whether the processor executes Thumb code.
    fn is_thumb(&self) -> (r: bool)
        ensures
            r == flag_t(self.psr_word()),
    {
        self.t()
    }

    /// The mode field, decoded.
    fn mode(&self) -> (r: CPUMode)
        ensures
            r == psr_mode(self.psr_word()),
    ;
}

impl PSR for u32 {
    open spec fn psr_word(&self) -> u32 {
        *self
    }

    fn n(&self) -> (r: bool) {
        (*self >> 31u32) & 1 == 1
    }

    fn z(&self) -> (r: bool) {
        (*self >> 30u32) & 1 == 1
    }

    fn c(&self) -> (r: bool) {
        (*self >> 29u32) & 1 == 1
    }

    fn v(&self) -> (r: bool) {
        (*self >> 28u32) & 1 == 1
    }

    fn i(&self) -> (r: bool) {
        (*self >> 7u32) & 1 == 1
    }

    fn f(&self) -> (r: bool) {
        (*self >> 6u32) & 1 == 1
    }

    fn t(&self) -> (r: bool) {
        (*self >> 5u32) & 1 == 1
    }

    fn mode(&self) -> (r: CPUMode) {
        CPUMode::from(*self & 0x1f)
    }
}

/// The storage slot a logical register resolves to.
#[derive(Clone, Copy, Debug, PartialEq, Eq, Structural)]
pub enum RegisterSlot {
    /// r0..r7, shared by every mode.
    Low(usize),
    /// r8..r12: the register's offset from r8, and its copy (1 for FIQ, 0 otherwise).
    High(usize, usize),
    /// r13 of a bank.
    StackPointer(usize),
    /// r14 of a bank.
    LinkRegister(usize),
    /// r15.
    ProgramCounter,
    /// The current program status register.
    CurrentStatus,
    /// The saved program status register of a bank.
    SavedStatus(usize),
}

/// The single mapping from (logical register, mode) to a storage slot.
/// Registers past 17 resolve to no slot.
pub open spec fn slot_of(register: int, mode: CPUMode) -> Option<RegisterSlot> {
    if 0 <= register <= 7 {
        Some(RegisterSlot::Low(register as usize))
    } else if 8 <= register <= 12 {
        Some(RegisterSlot::High((register - 8) as usize, if mode == CPUMode::Fiq { 1 } else { 0 }))
    } else if register == 13 {
        Some(RegisterSlot::StackPointer(bank_of(mode) as usize))
    } else if register == 14 {
        Some(RegisterSlot::LinkRegister(bank_of(mode) as usize))
    } else if register == 15 {
        Some(RegisterSlot::ProgramCounter)
    } else if register == 16 {
        Some(RegisterSlot::CurrentStatus)
    } else if register == 17 {
        Some(RegisterSlot::SavedStatus(bank_of(mode) as usize))
    } else {
        None
    }
}

/// Whether two modes see the same copy of a logical register: always for the
/// unbanked r0..r7, r15 and r16; for r8..r12 when both or neither are FIQ; for
/// r13, r14 and r17 when both select the same bank.
pub open spec fn same_copy(register: int, m1: CPUMode, m2: CPUMode) -> bool {
    if 8 <= register <= 12 {
        (m1 == CPUMode::Fiq) == (m2 == CPUMode::Fiq)
    } else if register == 13 || register == 14 || register == 17 {
        bank_of(m1) == bank_of(m2)
    } else {
        true
    }
}

/// Resolves a logical register under a mode to its storage slot.
pub fn slot_for_mode(register: usize, mode: CPUMode) -> (r: Option<RegisterSlot>)
    ensures
        r == slot_of(register as int, mode),
{
    if register <= 7 {
        Some(RegisterSlot::Low(register))
    } else if register <= 12 {
        let copy: usize = if mode == CPUMode::Fiq { 1 } else { 0 };
        Some(RegisterSlot::High(register - 8, copy))
    } else if register == 13 {
        Some(RegisterSlot::StackPointer(usize::from(mode)))
    } else if register == 14 {
        Some(RegisterSlot::LinkRegister(usize::from(mode)))
    } else if register == 15 {
        Some(RegisterSlot::ProgramCounter)
    } else if register == 16 {
        Some(RegisterSlot::CurrentStatus)
    } else if register == 17 {
        Some(RegisterSlot::SavedStatus(usize::from(mode)))
    } else {
        None
    }
}

/// Whether a slot names existing storage.
pub open spec fn valid_slot(s: RegisterSlot) -> bool {
    match s {
        RegisterSlot::Low(k) => k < 8,
        RegisterSlot::High(k, c) => k < 5 && c < 2,
        RegisterSlot::StackPointer(b) => b < 6,
        RegisterSlot::LinkRegister(b) => b < 6,
        RegisterSlot::SavedStatus(b) => b < 6,
        _ => true,
    }
}

/// The complete architectural register file.
#[derive(Clone, Copy, Debug, PartialEq, Eq)]
pub struct RegisterState {
    /// Saved status registers, one per bank (bank 0, User/System, is unused
    /// by the architecture but kept for uniform indexing).
    pub psr: [u32; 6],
    /// The current status register.
    pub cpsr: u32,
    /// r0..r7.
    pub arm_thumb_registers: [u32; 8],
    /// r8..r12, each with a shared copy (0) and a FIQ copy (1).
    pub arm_registers: [[u32; 2]; 5],
    /// r13 of each bank.
    pub stack_pointer: [u32; 6],
    /// r14 of each bank.
    pub link_register: [u32; 6],
    /// r15.
    pub prgm_counter: u32,
}

impl RegisterState {
    /// The value held in a slot.
    pub open spec fn slot_value(self, s: RegisterSlot) -> u32 {
        match s {
            RegisterSlot::Low(k) => self.arm_thumb_registers[k as int],
            RegisterSlot::High(k, c) => self.arm_registers[k as int][c as int],
            RegisterSlot::StackPointer(b) => self.stack_pointer[b as int],
            RegisterSlot::LinkRegister(b) => self.link_register[b as int],
            RegisterSlot::ProgramCounter => self.prgm_counter,
            RegisterSlot::CurrentStatus => self.cpsr,
            RegisterSlot::SavedStatus(b) => self.psr[b as int],
        }
    }

    /// `after` is this state with logical register `register` under `mode`
    /// set to `value`: the resolved slot holds `value` and every other slot is
    /// kept; a register past 17 leaves the whole state as it was.
    pub open spec fn is_write(self, after: RegisterState, register: int, mode: CPUMode, value: u32) -> bool {
        match slot_of(register, mode) {
            Some(s) => forall|t: RegisterSlot| #[trigger] valid_slot(t) ==>
                after.slot_value(t) == (if t == s { value } else { self.slot_value(t) }),
            None => after == self,
        }
    }

    /// The value of a logical register as seen under a mode.
    pub open spec fn read_reg(self, register: int, mode: CPUMode) -> Option<u32> {
        match slot_of(register, mode) {
            Some(s) => Some(self.slot_value(s)),
            None => None,
        }
    }
}

impl RegisterState {
    /// Reads logical register `register` (0..=17) as seen under `mode`;
    /// `None` for any other index.
    pub fn get_reg_for_mode(&self, register: usize, mode: CPUMode) -> (r: Option<u32>)
        ensures
            r == self.read_reg(register as int, mode),
            r is Some <==> register <= 17,
    {
        match slot_for_mode(register, mode) {
            Some(s) => Some(
                match s {
                    RegisterSlot::Low(k) => self.arm_thumb_registers[k],
                    RegisterSlot::High(k, c) => self.arm_registers[k][c],
                    RegisterSlot::StackPointer(b) => self.stack_pointer[b],
                    RegisterSlot::LinkRegister(b) => self.link_register[b],
                    RegisterSlot::ProgramCounter => self.prgm_counter,
                    RegisterSlot::CurrentStatus => self.cpsr,
                    RegisterSlot::SavedStatus(b) => self.psr[b],
                },
            ),
            None => None,
        }
    }

    /// Returns the state with logical register `register` under `mode` set to
    /// `value`; an index past 17 returns the state unchanged.
    pub fn set_reg_for_mode(self, register: usize, mode: CPUMode, value: u32) -> (r: Self)
        ensures
            self.is_write(r, register as int, mode, value),
            register > 17 ==> r == self,
    {
        let mut st = self;
        match slot_for_mode(register, mode) {
            Some(RegisterSlot::Low(k)) => st.arm_thumb_registers[k] = value,
            Some(RegisterSlot::High(k, c)) => st.arm_registers[k][c] = value,
            Some(RegisterSlot::StackPointer(b)) => st.stack_pointer[b] = value,
            Some(RegisterSlot::LinkRegister(b)) => st.link_register[b] = value,
            Some(RegisterSlot::ProgramCounter) => st.prgm_counter = value,
            Some(RegisterSlot::CurrentStatus) => st.cpsr = value,
            Some(RegisterSlot::SavedStatus(b)) => st.psr[b] = value,
            None => {},
        }
        st
    }
}

impl RegisterState {
    /// The register file at processor reset: every register zero.
    pub fn new() -> (r: Self)
        ensures
            forall|t: RegisterSlot| valid_slot(t) ==> #[trigger] r.slot_value(t) == 0,
    {
        RegisterState {
            psr: [0u32; 6],
            cpsr: 0,
            arm_thumb_registers: [0u32; 8],
            arm_registers: [[0u32; 2]; 5],
            stack_pointer: [0u32; 6],
            link_register: [0u32; 6],
            prgm_counter: 0,
        }
    }
}

/// Every register in 0..=17 resolves to existing storage, and two
/// (register, mode) pairs share a slot exactly when they name the same
/// register and the modes see the same copy of it.
pub proof fn lemma_slot_of_sharing(i: int, m1: CPUMode, j: int, m2: CPUMode)
    requires
        0 <= i <= 17,
        0 <= j <= 17,
    ensures
        slot_of(i, m1) is Some,
        valid_slot(slot_of(i, m1).unwrap()),
        (slot_of(i, m1) == slot_of(j, m2)) <==> (i == j && same_copy(i, m1, m2)),
{
}

/// Banking symmetry: after writing `value` to register `i` under mode `m`,
/// reading `i` under `m` gives `value`; reading it under any mode `m2` gives
/// `value` when `m2` sees the same copy of `i` (always for the unbanked
/// registers) and the old value otherwise; every other register is unchanged
/// under every mode.
pub proof fn lemma_banking_symmetry(
    before: RegisterState,
    after: RegisterState,
    i: int,
    m: CPUMode,
    value: u32,
)
    requires
        0 <= i <= 17,
        before.is_write(after, i, m, value),
    ensures
        after.read_reg(i, m) == Some(value),
        forall|m2: CPUMode| #[trigger] after.read_reg(i, m2) == if same_copy(i, m, m2) {
            Some(value)
        } else {
            before.read_reg(i, m2)
        },
        forall|j: int, m2: CPUMode| 0 <= j <= 17 && j != i ==> #[trigger] after.read_reg(j, m2) == before.read_reg(j, m2),
{
    let s = slot_of(i, m).unwrap();
    lemma_slot_of_sharing(i, m, i, m);
    assert forall|m2: CPUMode| #[trigger] after.read_reg(i, m2) == if same_copy(i, m, m2) {
        Some(value)
    } else {
        before.read_reg(i, m2)
    } by {
        lemma_slot_of_sharing(i, m, i, m2);
        lemma_slot_of_sharing(i, m2, i, m2);
    }
    assert forall|j: int, m2: CPUMode| 0 <= j <= 17 && j != i implies #[trigger] after.read_reg(j, m2) == before.read_reg(j, m2) by {
        lemma_slot_of_sharing(i, m, j, m2);
        lemma_slot_of_sharing(j, m2, j, m2);
    }
}

} // verus!
