//! Protocol of the external 2 MiB quad-SPI NOR flash (GD25Q16C).
//!
//! The flash holds 8192 pages of 256 bytes; page `p` covers addresses
//! `p * 256 ..= p * 256 + 255`. Each operation is a fixed sequence of bus
//! steps (`FlashStep`) that the caller carries out in order; a `WaitReady`
//! step is carried out by running a `ReadyPoll` to completion.
//!
//! A page program that runs past the end of its page wraps to the start of
//! the same page: this is the chip's behaviour and is kept as it is.
use vstd::prelude::*;

verus! {

/// Bytes per page.
pub const PAGE_SIZE: u32 = 256;

/// Pages on the chip.
pub const PAGE_COUNT: u32 = 8192;

/// Bytes on the chip.
pub const FLASH_SIZE: u32 = 2_097_152;

/// Write-in-progress bit of status register 1.
pub const STATUS_BUSY: u8 = 0x01;

/// Erase/program-suspended bit of status register 2.
pub const STATUS2_SUSPENDED: u8 = 0x80;

/// Quad-enable bit of status register 2.
pub const STATUS2_QUAD_ENABLE: u8 = 0x02;

/// Delay after power-up before the first command, in milliseconds.
pub const STARTUP_DELAY_MS: u32 = 5;

/// Delay after a reset before the chip accepts commands, in milliseconds
/// (the datasheet asks for 30 µs).
pub const RESET_RECOVERY_MS: u32 = 1;

/// Divider of the 120 MHz CPU clock for the bus (60 MHz).
pub const CLOCK_DIVIDER: u8 = 2;

/// The commands this driver sends to the chip.
#[derive(Clone, Copy, Debug, PartialEq, Eq, Structural)]
pub enum FlashCommand {
    EnableReset,
    Reset,
    WriteEnable,
    WriteStatus2,
    ReadStatus,
    ReadStatus2,
    QuadRead,
    QuadPageProgram,
    EraseChip,
}

/// The instruction byte of each command.
pub open spec fn opcode_of(c: FlashCommand) -> u8 {
    match c {
        FlashCommand::EnableReset => 0x66,
        FlashCommand::Reset => 0x99,
        FlashCommand::WriteEnable => 0x06,
        FlashCommand::WriteStatus2 => 0x31,
        FlashCommand::ReadStatus => 0x05,
        FlashCommand::ReadStatus2 => 0x35,
        FlashCommand::QuadRead => 0x6B,
        FlashCommand::QuadPageProgram => 0x32,
        FlashCommand::EraseChip => 0xC7,
    }
}

impl FlashCommand {
    /// The instruction byte sent on the bus.
    pub fn opcode(self) -> (r: u8)
        ensures
            r == opcode_of(self),
    {
        match self {
            FlashCommand::EnableReset => 0x66,
            FlashCommand::Reset => 0x99,
            FlashCommand::WriteEnable => 0x06,
            FlashCommand::WriteStatus2 => 0x31,
            FlashCommand::ReadStatus => 0x05,
            FlashCommand::ReadStatus2 => 0x35,
            FlashCommand::QuadRead => 0x6B,
            FlashCommand::QuadPageProgram => 0x32,
            FlashCommand::EraseChip => 0xC7,
        }
    }
}

/// Commands that carry neither address nor data.
pub open spec fn is_instruction(c: FlashCommand) -> bool {
    c is EnableReset || c is Reset || c is WriteEnable
}

/// Commands that read a status register.
pub open spec fn is_register_read(c: FlashCommand) -> bool {
    c is ReadStatus || c is ReadStatus2
}

/// Commands that write a status register.
pub open spec fn is_register_write(c: FlashCommand) -> bool {
    c is WriteStatus2
}

/// One step of a flash operation.
#[derive(Clone, Copy, Debug, PartialEq, Eq, Structural)]
pub enum FlashStep {
    /// Wait this many milliseconds.
    DelayMs(u32),
    /// Poll the status registers until the chip is neither busy nor
    /// suspended (run a `ReadyPoll`).
    WaitReady,
    /// Send an instruction with neither address nor data.
    Instruction(FlashCommand),
    /// Write one byte to a status register.
    WriteRegister(FlashCommand, u8),
    /// Set the bus clock divider.
    SetClockDivider(u8),
    /// Erase the whole chip.
    EraseChip,
    /// Quad read into the caller's buffer, starting at this address.
    ReadMemory(u32),
    /// Quad page program of the caller's buffer, starting at this address.
    ProgramPage(u32),
}

/// The command of each step is of the kind that the step's bus function
/// accepts.
pub open spec fn well_formed(s: FlashStep) -> bool {
    match s {
        FlashStep::Instruction(c) => is_instruction(c),
        FlashStep::WriteRegister(c, _) => is_register_write(c),
        _ => true,
    }
}

/// Start-up: delay, wait until ready, reset, wait for the reset, set the
/// bus clock, then enable quad mode and wait until the write completes.
pub open spec fn init_steps() -> Seq<FlashStep> {
    seq![
        FlashStep::DelayMs(STARTUP_DELAY_MS),
        FlashStep::WaitReady,
        FlashStep::Instruction(FlashCommand::EnableReset),
        FlashStep::Instruction(FlashCommand::Reset),
        FlashStep::DelayMs(RESET_RECOVERY_MS),
        FlashStep::SetClockDivider(CLOCK_DIVIDER),
        FlashStep::Instruction(FlashCommand::WriteEnable),
        FlashStep::WriteRegister(FlashCommand::WriteStatus2, STATUS2_QUAD_ENABLE),
        FlashStep::WaitReady,
    ]
}

/// Page program at `addr`: write enable, program, wait until done.
pub open spec fn write_page_steps(addr: u32) -> Seq<FlashStep> {
    seq![
        FlashStep::Instruction(FlashCommand::WriteEnable),
        FlashStep::ProgramPage(addr),
        FlashStep::WaitReady,
    ]
}

/// Chip erase: write enable, erase, wait until done (this can take minutes).
pub open spec fn erase_chip_steps() -> Seq<FlashStep> {
    seq![
        FlashStep::Instruction(FlashCommand::WriteEnable),
        FlashStep::EraseChip,
        FlashStep::WaitReady,
    ]
}

/// Read at `addr`: one quad read, with no page restriction.
pub open spec fn read_steps(addr: u32) -> Seq<FlashStep> {
    seq![FlashStep::ReadMemory(addr)]
}

/// Whether every step of `steps` is well formed.
pub open spec fn all_well_formed(steps: Seq<FlashStep>) -> bool {
    forall|i: int| 0 <= i < steps.len() ==> well_formed(#[trigger] steps[i])
}

/// The steps that bring the chip up after power-on, in order.
pub fn init_sequence() -> (r: [FlashStep; 9])
    ensures
        r@ == init_steps(),
        all_well_formed(r@),
{
    let r = [
        FlashStep::DelayMs(STARTUP_DELAY_MS),
        FlashStep::WaitReady,
        FlashStep::Instruction(FlashCommand::EnableReset),
        FlashStep::Instruction(FlashCommand::Reset),
        FlashStep::DelayMs(RESET_RECOVERY_MS),
        FlashStep::SetClockDivider(CLOCK_DIVIDER),
        FlashStep::Instruction(FlashCommand::WriteEnable),
        FlashStep::WriteRegister(FlashCommand::WriteStatus2, STATUS2_QUAD_ENABLE),
        FlashStep::WaitReady,
    ];
    assert(r@ == init_steps());
    r
}

/// The steps that program a page starting at `addr` with the caller's
/// buffer. The whole buffer is sent: bytes past the end of the page wrap to
/// the start of the same page (see `program_address`).
pub fn write_page_sequence(addr: u32) -> (r: [FlashStep; 3])
    ensures
        r@ == write_page_steps(addr),
        all_well_formed(r@),
{
    let r = [
        FlashStep::Instruction(FlashCommand::WriteEnable),
        FlashStep::ProgramPage(addr),
        FlashStep::WaitReady,
    ];
    assert(r@ == write_page_steps(addr));
    r
}

/// The steps that erase the whole chip.
pub fn erase_chip_sequence() -> (r: [FlashStep; 3])
    ensures
        r@ == erase_chip_steps(),
        all_well_formed(r@),
{
    let r = [
        FlashStep::Instruction(FlashCommand::WriteEnable),
        FlashStep::EraseChip,
        FlashStep::WaitReady,
    ];
    assert(r@ == erase_chip_steps());
    r
}

/// The steps that read the caller's buffer from `addr` on.
pub fn read_sequence(addr: u32) -> (r: [FlashStep; 1])
    ensures
        r@ == read_steps(addr),
        all_well_formed(r@),
{
    let r = [FlashStep::ReadMemory(addr)];
    assert(r@ == read_steps(addr));
    r
}

/// First address of the page that holds `addr`.
pub open spec fn page_base(addr: int) -> int {
    addr - addr % PAGE_SIZE as int
}

/// Address where byte `i` of a page program started at `addr` is stored.
pub open spec fn programmed_address(addr: u32, i: int) -> int {
    page_base(addr as int) + (addr as int % PAGE_SIZE as int + i) % PAGE_SIZE as int
}

/// Address from which byte `i` of a read started at `addr` comes.
pub open spec fn read_address_of(addr: u32, i: int) -> int {
    addr as int + i
}

/// Index of the page that holds `addr`.
pub fn page_of(addr: u32) -> (r: u32)
    ensures
        r == addr / PAGE_SIZE,
{
    addr / PAGE_SIZE
}

/// Offset of `addr` within its page.
pub fn page_offset(addr: u32) -> (r: u32)
    ensures
        r == addr % PAGE_SIZE,
{
    addr % PAGE_SIZE
}

/// Address where byte `index` of a page program started at `addr` lands.
pub fn program_address(addr: u32, index: u32) -> (r: u32)
    ensures
        r == programmed_address(addr, index as int),
{
    let offset = addr % PAGE_SIZE;
    let base = addr - offset;
    let within = ((offset as u64 + index as u64) % (PAGE_SIZE as u64)) as u32;
    base + within
}

/// Address from which byte `index` of a read started at `addr` comes.
pub fn read_address(addr: u32, index: u32) -> (r: u32)
    requires
        addr as int + index as int <= u32::MAX,
    ensures
        r == read_address_of(addr, index as int),
{
    addr + index
}

/// A page program keeps to the page of its start address: the bytes up to
/// the end of the page land in order from `addr`, and the following ones
/// wrap to the start of the same page, never into the next page.
pub proof fn lemma_page_program_wraps(addr: u32, i: int)
    requires
        0 <= i,
    ensures
        page_base(programmed_address(addr, i)) == page_base(addr as int),
        i < PAGE_SIZE - addr % PAGE_SIZE ==> programmed_address(addr, i) == addr + i,
        PAGE_SIZE - addr % PAGE_SIZE <= i < 2 * PAGE_SIZE - addr % PAGE_SIZE
            ==> programmed_address(addr, i) == page_base(addr as int) + (i - (PAGE_SIZE - addr
            % PAGE_SIZE)),
{
    let off = addr as int % 256;
    let base = page_base(addr as int);
    let q = addr as int / 256;
    assert(base == q * 256);
    let within = (off + i) % 256;
    assert(0 <= within < 256);
    assert((q * 256 + within) % 256 == within) by (nonlinear_arith)
        requires
            0 <= within < 256,
    ;
}

/// A read runs on linearly across page boundaries: byte `i` comes from
/// `addr + i`, which lies `(addr % PAGE_SIZE + i) / PAGE_SIZE` pages after
/// the page of `addr`.
pub proof fn lemma_read_is_linear(addr: u32, i: int)
    requires
        0 <= i,
    ensures
        read_address_of(addr, i) == addr + i,
        read_address_of(addr, i) / PAGE_SIZE as int == addr / PAGE_SIZE + (addr % PAGE_SIZE
            + i) / PAGE_SIZE as int,
{
    let q = addr as int / 256;
    let off = addr as int % 256;
    assert(addr as int == q * 256 + off);
    assert((q * 256 + off + i) / 256 == q + (off + i) / 256) by (nonlinear_arith)
        requires
            0 <= off,
            0 <= i,
    ;
}

/// Which status bit a `ReadyPoll` is waiting on.
#[derive(Clone, Copy, Debug, PartialEq, Eq, Structural)]
pub enum PollPhase {
    /// Reading status register 1 until the write-in-progress bit is clear.
    WriteInProgress,
    /// Reading status register 2 until the suspend bit is clear.
    Suspended,
    /// Neither busy nor suspended.
    Ready,
}

/// The phase after reading `status` in phase `p`.
pub open spec fn next_phase(p: PollPhase, status: u8) -> PollPhase {
    match p {
        PollPhase::WriteInProgress => if status & STATUS_BUSY != 0 {
            PollPhase::WriteInProgress
        } else {
            PollPhase::Suspended
        },
        PollPhase::Suspended => if status & STATUS2_SUSPENDED != 0 {
            PollPhase::Suspended
        } else {
            PollPhase::Ready
        },
        PollPhase::Ready => PollPhase::Ready,
    }
}

/// The status register read in phase `p`, if any.
pub open spec fn query_of(p: PollPhase) -> Option<FlashCommand> {
    match p {
        PollPhase::WriteInProgress => Some(FlashCommand::ReadStatus),
        PollPhase::Suspended => Some(FlashCommand::ReadStatus2),
        PollPhase::Ready => None,
    }
}

/// Waiting for the chip to finish: first until the write-in-progress bit of
/// status register 1 is clear, then until the suspend bit of status
/// register 2 is clear.
///
/// There is no timeout: a chip that stays busy keeps the poll going.
pub struct ReadyPoll {
    phase: PollPhase,
}

impl ReadyPoll {
    pub closed spec fn phase(&self) -> PollPhase {
        self.phase
    }

    /// A poll that starts with status register 1.
    pub fn new() -> (r: ReadyPoll)
        ensures
            r.phase() == PollPhase::WriteInProgress,
    {
        ReadyPoll { phase: PollPhase::WriteInProgress }
    }

    /// The status register to read next, or `None` once the chip is ready.
    pub fn query(&self) -> (r: Option<FlashCommand>)
        ensures
            r == query_of(self.phase()),
            r matches Some(c) ==> is_register_read(c),
    {
        match self.phase {
            PollPhase::WriteInProgress => Some(FlashCommand::ReadStatus),
            PollPhase::Suspended => Some(FlashCommand::ReadStatus2),
            PollPhase::Ready => None,
        }
    }

    /// Takes the byte read from the register that `query` named.
    pub fn observe(&mut self, status: u8)
        ensures
            final(self).phase() == next_phase(old(self).phase(), status),
    {
        self.phase = match self.phase {
            PollPhase::WriteInProgress => if status & STATUS_BUSY != 0 {
                PollPhase::WriteInProgress
            } else {
                PollPhase::Suspended
            },
            PollPhase::Suspended => if status & STATUS2_SUSPENDED != 0 {
                PollPhase::Suspended
            } else {
                PollPhase::Ready
            },
            PollPhase::Ready => PollPhase::Ready,
        };
    }

    /// Whether the chip is neither busy nor suspended.
    pub fn is_ready(&self) -> (r: bool)
        ensures
            r == (self.phase() == PollPhase::Ready),
    {
        match self.phase {
            PollPhase::Ready => true,
            _ => false,
        }
    }
}

} // verus!
