use vstd::prelude::*;

verus! {

/// Index of the status register.
pub const SR: u8 = 12;

/// Index of the cause register.
pub const CAUSE: u8 = 13;

/// Exceptions the processor can raise, each with its cause code.
#[derive(Clone, Copy, Debug, PartialEq, Eq, Structural)]
pub enum Exception {
    Interrupt,
    AddressErrorLoad,
    AddressErrorStore,
    BusErrorInstruction,
    BusErrorData,
    Syscall,
    Breakpoint,
    ReservedInstruction,
    CoprocessorUnusable,
    ArithmeticOverflow,
}

impl Exception {
    pub open spec fn code_spec(self) -> u32 {
        match self {
            Exception::Interrupt => 0x00,
            Exception::AddressErrorLoad => 0x04,
            Exception::AddressErrorStore => 0x05,
            Exception::BusErrorInstruction => 0x06,
            Exception::BusErrorData => 0x07,
            Exception::Syscall => 0x08,
            Exception::Breakpoint => 0x09,
            Exception::ReservedInstruction => 0x0a,
            Exception::CoprocessorUnusable => 0x0b,
            Exception::ArithmeticOverflow => 0x0c,
        }
    }

    /// The exception code written to the cause register.
    pub fn code(&self) -> (r: u32)
        ensures
            r == self.code_spec(),
    {
        match self {
            Exception::Interrupt => 0x00,
            Exception::AddressErrorLoad => 0x04,
            Exception::AddressErrorStore => 0x05,
            Exception::BusErrorInstruction => 0x06,
            Exception::BusErrorData => 0x07,
            Exception::Syscall => 0x08,
            Exception::Breakpoint => 0x09,
            Exception::ReservedInstruction => 0x0a,
            Exception::CoprocessorUnusable => 0x0b,
            Exception::ArithmeticOverflow => 0x0c,
        }
    }
}

/// Cause register with the exception-code field (bits 2 to 6) set to `code`.
pub open spec fn with_execode(cause: u32, code: u32) -> u32 {
    (!(0x1Fu32 << 2u32) & cause) | (code << 2u32)
}

/// System control coprocessor: 32 general registers.
pub struct Cop0 {
    gen_registers: [u32; 32],
}

impl View for Cop0 {
    type V = Seq<u32>;

    closed spec fn view(&self) -> Seq<u32> {
        self.gen_registers@
    }
}

impl Cop0 {
    /// All registers zero.
    pub fn new() -> (r: Cop0)
        ensures
            r@.len() == 32,
            forall|i: int| 0 <= i < 32 ==> r@[i] == 0,
    {
        Cop0 { gen_registers: [0; 32] }
    }

    /// Value of register `register_number`.
    pub fn read_reg(&self, register_number: u8) -> (r: u32)
        requires
            register_number < 32,
        ensures
            r == self@[register_number as int],
    {
        self.gen_registers[register_number as usize]
    }

    /// There are always 32 registers.
    pub proof fn lemma_len(&self)
        ensures
            self@.len() == 32,
    {
    }

    /// Sets register `register_number` to `value`. Register 0 is hard-wired
    /// to zero: a write to it is ignored.
    pub fn write_reg(&mut self, register_number: u8, value: u32)
        requires
            register_number < 32,
        ensures
            register_number == 0 ==> final(self)@ == old(self)@,
            register_number != 0 ==> final(self)@ == old(self)@.update(register_number as int, value),
    {
        if register_number != 0 {
            self.gen_registers[register_number as usize] = value;
        }
    }

    /// Whether the status register isolates the cache (bit 16).
    pub fn cache_isolated(&self) -> (r: bool)
        ensures
            r == ((self@[SR as int] >> 16u32) & 1 == 1),
    {
        ((self.gen_registers[12] >> 16) & 0x1) == 1
    }

    /// Records `exception` in the exception-code field of the cause register.
    pub fn set_cause_execode(&mut self, exception: Exception)
        ensures
            final(self)@ == old(self)@.update(
                CAUSE as int,
                with_execode(old(self)@[CAUSE as int], exception.code_spec()),
            ),
    {
        let cause = (!(0x1Fu32 << 2u32) & self.gen_registers[13]) | (exception.code() << 2u32);
        self.gen_registers[13] = cause;
    }
}

} // verus!
