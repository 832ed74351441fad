//! Register-level model of the sub-GHz transceiver: the bytes of each bus
//! transaction, the fixed configuration image, the arming sequence with its
//! bounded-retry polling, packet acceptance, and the watchdog decision of
//! the acquisition loop.

use vstd::prelude::*;

verus! {

/// Read flag for a single register access.
pub const READ_SINGLE: u8 = 0x80;

/// Read flag for burst (and status-register) access.
pub const READ_BURST: u8 = 0xC0;

/// Reset strobe.
pub const SRES: u8 = 0x30;

/// Calibrate strobe.
pub const SCAL: u8 = 0x33;

/// Enter-receive strobe.
pub const SRX: u8 = 0x34;

/// Enter-idle strobe.
pub const SIDLE: u8 = 0x36;

/// Flush-receive-buffer strobe.
pub const SFRX: u8 = 0x3A;

/// Radio control state machine status register.
pub const MARCSTATE: u8 = 0x35;

/// Received-byte-count status register.
pub const RXBYTES: u8 = 0x3B;

/// Part number status register.
pub const PARTNUM: u8 = 0x30;

/// Version status register.
pub const VERSION: u8 = 0x31;

/// Receive/transmit buffer address.
pub const FIFO: u8 = 0x3F;

/// Control-state value: idle.
pub const MARC_IDLE: u8 = 0x01;

/// Control-state value: receiving.
pub const MARC_RX: u8 = 0x0D;

/// First byte of the fixed sync word.
pub const PREAMBLE_0: u8 = 0x54;

/// Second byte of the fixed sync word.
pub const PREAMBLE_1: u8 = 0x3D;

/// Seconds without a packet before the owner forces reinitialization.
pub const WATCHDOG_SECS: u64 = 600;

/// Poll budget for each state transition, at roughly 3 ms a poll.
pub const STATE_POLLS: u8 = 35;

/// The two bytes of a single-register write transaction.
pub fn write_register_frame(addr: u8, value: u8) -> (r: [u8; 2])
    ensures
        r@ == seq![addr, value],
{
    let r: [u8; 2] = [addr, value];
    proof {
        assert(r@ =~= seq![addr, value]);
    }
    r
}

/// The two bytes of a single-register read transaction; the second byte is
/// exchanged for the register value.
pub fn read_register_frame(addr: u8) -> (r: [u8; 2])
    ensures
        r@ == seq![addr | READ_SINGLE, 0u8],
{
    let r: [u8; 2] = [addr | READ_SINGLE, 0];
    proof {
        assert(r@ =~= seq![addr | READ_SINGLE, 0u8]);
    }
    r
}

/// The two bytes of a status-register read transaction, which carries the
/// burst flag.
pub fn read_status_frame(addr: u8) -> (r: [u8; 2])
    ensures
        r@ == seq![addr | READ_BURST, 0u8],
{
    let r: [u8; 2] = [addr | READ_BURST, 0];
    proof {
        assert(r@ =~= seq![addr | READ_BURST, 0u8]);
    }
    r
}

/// The single byte of a strobe transaction.
pub fn strobe_frame(cmd: u8) -> (r: [u8; 1])
    ensures
        r@ == seq![cmd],
{
    let r: [u8; 1] = [cmd];
    proof {
        assert(r@ =~= seq![cmd]);
    }
    r
}

/// The transmit buffer of a burst read of `len` buffer bytes: the buffer
/// address with the burst-read flag, then `len` placeholder bytes.
pub fn fifo_burst_frame(len: usize) -> (r: Vec<u8>)
    requires
        len < usize::MAX,
    ensures
        r@.len() == len + 1,
        r@[0] == (FIFO | READ_BURST),
        forall|i: int| 1 <= i < r@.len() ==> r@[i] == 0u8,
{
    let mut r: Vec<u8> = Vec::new();
    r.push(FIFO | READ_BURST);
    let mut i: usize = 0;
    while i < len
        invariant
            i <= len,
            r@.len() == i + 1,
            r@[0] == (FIFO | READ_BURST),
            forall|j: int| 1 <= j < r@.len() ==> r@[j] == 0u8,
        decreases len - i,
    {
        r.push(0);
        i = i + 1;
    }
    r
}

/// The buffer bytes of a completed burst-read transaction: everything after
/// the leading status byte, which is discarded.
pub fn fifo_payload(txbuf: &[u8]) -> (r: Vec<u8>)
    requires
        txbuf@.len() >= 1,
    ensures
        r@ == txbuf@.skip(1),
{
    let r = vstd::slice::slice_to_vec(vstd::slice::slice_subrange(txbuf, 1, txbuf.len()));
    proof {
        assert(r@ =~= txbuf@.skip(1));
    }
    r
}

/// The fixed register image written at every initialization: the values not
/// expressible through higher-level parameter setters, then the derived
/// frequency-synthesizer, channel-bandwidth, data-rate and deviation values.
pub open spec fn init_register_seq() -> Seq<(u8, u8)> {
    seq![
        (0x03u8, 0x01u8),
        (0x02u8, 0x01u8),
        (0x00u8, 0x2Eu8),
        (0x04u8, 0x54u8),
        (0x05u8, 0x3Du8),
        (0x06u8, 0x30u8),
        (0x07u8, 0x00u8),
        (0x08u8, 0x02u8),
        (0x09u8, 0x00u8),
        (0x0Au8, 0x00u8),
        (0x0Cu8, 0x00u8),
        (0x12u8, 0x06u8),
        (0x13u8, 0x22u8),
        (0x14u8, 0xF8u8),
        (0x17u8, 0x00u8),
        (0x18u8, 0x18u8),
        (0x19u8, 0x2Eu8),
        (0x1Au8, 0xBFu8),
        (0x1Bu8, 0x43u8),
        (0x1Cu8, 0x09u8),
        (0x1Du8, 0xB5u8),
        (0x21u8, 0xB6u8),
        (0x22u8, 0x10u8),
        (0x23u8, 0xEAu8),
        (0x24u8, 0x2Au8),
        (0x25u8, 0x00u8),
        (0x26u8, 0x1Fu8),
        (0x29u8, 0x59u8),
        (0x2Cu8, 0x81u8),
        (0x2Du8, 0x35u8),
        (0x2Eu8, 0x09u8),
        (0x0Bu8, 0x08u8),
        (0x0Du8, 0x21u8),
        (0x0Eu8, 0x6Bu8),
        (0x0Fu8, 0xD0u8),
        (0x10u8, 0x5Cu8),
        (0x11u8, 0x04u8),
        (0x15u8, 0x44u8),
    ]
}

/// The register writes of one initialization, in order.
#[verifier::rlimit(100)]
pub fn init_register_values() -> (r: Vec<(u8, u8)>)
    ensures
        r@ == init_register_seq(),
{
    let mut r: Vec<(u8, u8)> = Vec::new();
    r.push((0x03, 0x01));
    r.push((0x02, 0x01));
    r.push((0x00, 0x2E));
    r.push((0x04, 0x54));
    r.push((0x05, 0x3D));
    r.push((0x06, 0x30));
    r.push((0x07, 0x00));
    r.push((0x08, 0x02));
    r.push((0x09, 0x00));
    r.push((0x0A, 0x00));
    r.push((0x0C, 0x00));
    r.push((0x12, 0x06));
    r.push((0x13, 0x22));
    r.push((0x14, 0xF8));
    r.push((0x17, 0x00));
    r.push((0x18, 0x18));
    r.push((0x19, 0x2E));
    r.push((0x1A, 0xBF));
    r.push((0x1B, 0x43));
    r.push((0x1C, 0x09));
    r.push((0x1D, 0xB5));
    r.push((0x21, 0xB6));
    r.push((0x22, 0x10));
    r.push((0x23, 0xEA));
    r.push((0x24, 0x2A));
    r.push((0x25, 0x00));
    r.push((0x26, 0x1F));
    r.push((0x29, 0x59));
    r.push((0x2C, 0x81));
    r.push((0x2D, 0x35));
    r.push((0x2E, 0x09));
    r.push((0x0B, 0x08));
    r.push((0x0D, 0x21));
    r.push((0x0E, 0x6B));
    r.push((0x0F, 0xD0));
    r.push((0x10, 0x5C));
    r.push((0x11, 0x04));
    r.push((0x15, 0x44));
    proof {
        assert(r@ =~= init_register_seq());
    }
    r
}

/// The control-state bits of a status byte.
pub fn marc_state(status: u8) -> (r: u8)
    ensures
        r == status & 0x1F,
{
    status & 0x1F
}

/// The byte count held in the receive-count status byte.
pub fn fifo_count(status: u8) -> (r: u8)
    ensures
        r == status & 0x7F,
{
    status & 0x7F
}

/// Phases of the receiver arming sequence: enter idle, await the idle state,
/// flush the receive buffer, start reception, await the receiving state.
#[derive(Clone, Copy, Debug, PartialEq, Eq, Structural)]
pub enum ArmPhase {
    EnterIdle,
    AwaitIdle,
    FlushFifo,
    StartRx,
    AwaitRx,
    Armed,
}

/// One chip-facing bus action.
#[derive(Clone, Copy, Debug, PartialEq, Eq, Structural)]
pub enum RadioAction {
    /// Send a strobe command.
    Strobe(u8),
    /// Write one configuration register.
    WriteRegister(u8, u8),
    /// Read one status register.
    ReadStatus(u8),
    /// Wait the given number of milliseconds.
    DelayMs(u32),
}

/// The arming sequence: an explicit finite-state object with bounded-retry
/// polling at each transition. Each poll budget is spent at most
/// `STATE_POLLS` times; when it runs out the sequence proceeds regardless,
/// leaving recovery to the owner's watchdog.
#[derive(Clone, Copy, Debug, PartialEq, Eq, Structural)]
pub struct ReceiverArming {
    pub phase: ArmPhase,
    pub polls_left: u8,
}

/// How many steps the arming sequence can still take: it shrinks at every
/// `advance`, so arming always terminates.
pub open spec fn arming_measure(s: ReceiverArming) -> int {
    match s.phase {
        ArmPhase::EnterIdle => 2 * (STATE_POLLS as int) + 5,
        ArmPhase::AwaitIdle => (STATE_POLLS as int) + 4 + s.polls_left,
        ArmPhase::FlushFifo => (STATE_POLLS as int) + 3,
        ArmPhase::StartRx => (STATE_POLLS as int) + 2,
        ArmPhase::AwaitRx => 1 + s.polls_left,
        ArmPhase::Armed => 0,
    }
}

impl ReceiverArming {
    /// Begin the arming sequence.
    pub fn begin() -> (s: ReceiverArming)
        ensures
            s.phase == ArmPhase::EnterIdle,
    {
        ReceiverArming { phase: ArmPhase::EnterIdle, polls_left: STATE_POLLS }
    }

    /// The bus action the current phase asks for; `None` once armed.
    pub fn action(&self) -> (a: Option<RadioAction>)
        ensures
            self.phase == ArmPhase::EnterIdle ==> a == Some(RadioAction::Strobe(SIDLE)),
            self.phase == ArmPhase::AwaitIdle ==> a == Some(RadioAction::ReadStatus(MARCSTATE)),
            self.phase == ArmPhase::FlushFifo ==> a == Some(RadioAction::Strobe(SFRX)),
            self.phase == ArmPhase::StartRx ==> a == Some(RadioAction::Strobe(SRX)),
            self.phase == ArmPhase::AwaitRx ==> a == Some(RadioAction::ReadStatus(MARCSTATE)),
            self.phase == ArmPhase::Armed ==> a is None,
    {
        match self.phase {
            ArmPhase::EnterIdle => Some(RadioAction::Strobe(SIDLE)),
            ArmPhase::AwaitIdle => Some(RadioAction::ReadStatus(MARCSTATE)),
            ArmPhase::FlushFifo => Some(RadioAction::Strobe(SFRX)),
            ArmPhase::StartRx => Some(RadioAction::Strobe(SRX)),
            ArmPhase::AwaitRx => Some(RadioAction::ReadStatus(MARCSTATE)),
            ArmPhase::Armed => None,
        }
    }

    /// Advance by one performed action. `observed` is the byte the last
    /// status read returned and is ignored by non-polling phases. A polling
    /// phase moves on when the wanted state shows, retries while budget
    /// remains, and otherwise proceeds regardless.
    pub fn advance(&mut self, observed: u8)
        ensures
            old(self).phase == ArmPhase::EnterIdle ==> *final(self) == (ReceiverArming {
                phase: ArmPhase::AwaitIdle,
                polls_left: STATE_POLLS,
            }),
            old(self).phase == ArmPhase::AwaitIdle ==> *final(self) == (
            if observed & 0x1F == MARC_IDLE || old(self).polls_left == 0 {
                ReceiverArming { phase: ArmPhase::FlushFifo, polls_left: 0 }
            } else {
                ReceiverArming {
                    phase: ArmPhase::AwaitIdle,
                    polls_left: (old(self).polls_left - 1) as u8,
                }
            }),
            old(self).phase == ArmPhase::FlushFifo ==> *final(self) == (ReceiverArming {
                phase: ArmPhase::StartRx,
                polls_left: 0,
            }),
            old(self).phase == ArmPhase::StartRx ==> *final(self) == (ReceiverArming {
                phase: ArmPhase::AwaitRx,
                polls_left: STATE_POLLS,
            }),
            old(self).phase == ArmPhase::AwaitRx ==> *final(self) == (
            if observed & 0x1F == MARC_RX || old(self).polls_left == 0 {
                ReceiverArming { phase: ArmPhase::Armed, polls_left: 0 }
            } else {
                ReceiverArming {
                    phase: ArmPhase::AwaitRx,
                    polls_left: (old(self).polls_left - 1) as u8,
                }
            }),
            old(self).phase == ArmPhase::Armed ==> *final(self) == *old(self),
            old(self).phase != ArmPhase::Armed ==> arming_measure(*final(self)) < arming_measure(
                *old(self),
            ),
    {
        match self.phase {
            ArmPhase::EnterIdle => {
                self.phase = ArmPhase::AwaitIdle;
                self.polls_left = STATE_POLLS;
            },
            ArmPhase::AwaitIdle => {
                if marc_state(observed) == MARC_IDLE || self.polls_left == 0 {
                    self.phase = ArmPhase::FlushFifo;
                    self.polls_left = 0;
                } else {
                    self.polls_left = self.polls_left - 1;
                }
            },
            ArmPhase::FlushFifo => {
                self.phase = ArmPhase::StartRx;
                self.polls_left = 0;
            },
            ArmPhase::StartRx => {
                self.phase = ArmPhase::AwaitRx;
                self.polls_left = STATE_POLLS;
            },
            ArmPhase::AwaitRx => {
                if marc_state(observed) == MARC_RX || self.polls_left == 0 {
                    self.phase = ArmPhase::Armed;
                    self.polls_left = 0;
                } else {
                    self.polls_left = self.polls_left - 1;
                }
            },
            ArmPhase::Armed => {},
        }
    }
}

/// The actions of one initialization up to arming: reset, settle, write the
/// full register image, calibrate, settle, read the part and version
/// identifiers. Arming then follows through `ReceiverArming`.
pub open spec fn init_action_seq() -> Seq<RadioAction> {
    seq![RadioAction::Strobe(SRES), RadioAction::DelayMs(100)] + init_register_seq().map_values(
        |p: (u8, u8)| RadioAction::WriteRegister(p.0, p.1),
    ) + seq![
        RadioAction::Strobe(SCAL),
        RadioAction::DelayMs(100),
        RadioAction::ReadStatus(PARTNUM),
        RadioAction::ReadStatus(VERSION),
    ]
}

/// The initialization plan, in order.
#[verifier::rlimit(100)]
pub fn init_actions() -> (r: Vec<RadioAction>)
    ensures
        r@ == init_action_seq(),
{
    let mut r: Vec<RadioAction> = Vec::new();
    r.push(RadioAction::Strobe(SRES));
    r.push(RadioAction::DelayMs(100));
    let regs = init_register_values();
    let mut i: usize = 0;
    while i < regs.len()
        invariant
            i <= regs@.len(),
            regs@ == init_register_seq(),
            r@ == seq![RadioAction::Strobe(SRES), RadioAction::DelayMs(100)] + regs@.take(
                i as int,
            ).map_values(|p: (u8, u8)| RadioAction::WriteRegister(p.0, p.1)),
        decreases regs@.len() - i,
    {
        let (addr, value) = (regs[i].0, regs[i].1);
        r.push(RadioAction::WriteRegister(addr, value));
        proof {
            assert(regs@.take(i + 1).map_values(
                |p: (u8, u8)| RadioAction::WriteRegister(p.0, p.1),
            ) =~= regs@.take(i as int).map_values(
                |p: (u8, u8)| RadioAction::WriteRegister(p.0, p.1),
            ) + seq![RadioAction::WriteRegister(regs@[i as int].0, regs@[i as int].1)]);
            assert(r@ =~= seq![RadioAction::Strobe(SRES), RadioAction::DelayMs(100)] + regs@.take(
                i + 1,
            ).map_values(|p: (u8, u8)| RadioAction::WriteRegister(p.0, p.1)));
        }
        i = i + 1;
    }
    r.push(RadioAction::Strobe(SCAL));
    r.push(RadioAction::DelayMs(100));
    r.push(RadioAction::ReadStatus(PARTNUM));
    r.push(RadioAction::ReadStatus(VERSION));
    proof {
        assert(regs@.take(regs@.len() as int) =~= regs@);
        assert(r@ =~= init_action_seq());
    }
    r
}

/// A drained buffer yields a packet exactly when it holds at least three
/// bytes and opens with the fixed sync word; the packet is the remainder
/// with the sync word stripped.
pub open spec fn packet_accepted(fifo: Seq<u8>) -> bool {
    &&& fifo.len() >= 3
    &&& fifo[0] == PREAMBLE_0
    &&& fifo[1] == PREAMBLE_1
}

/// Check the sync word of a drained buffer and strip it; short buffers and
/// wrong sync words yield `None`.
pub fn accept_packet(fifo: &[u8]) -> (r: Option<Vec<u8>>)
    ensures
        r is Some <==> packet_accepted(fifo@),
        r is Some ==> r.unwrap()@ == fifo@.skip(2),
{
    if fifo.len() < 3 {
        return None;
    }
    if fifo[0] != PREAMBLE_0 || fifo[1] != PREAMBLE_1 {
        return None;
    }
    let payload = vstd::slice::slice_to_vec(vstd::slice::slice_subrange(fifo, 2, fifo.len()));
    proof {
        assert(payload@ =~= fifo@.skip(2));
    }
    Some(payload)
}

/// One wait for a packet ends either with a drained buffer or with the
/// watchdog timeout.
pub enum WaitOutcome {
    /// The sync-checked packet the radio handed over.
    Packet(Vec<u8>),
    /// No packet within the watchdog window.
    TimedOut,
}

/// What the acquisition loop does next.
pub enum LoopAction {
    /// Decode the packet, then wait again.
    Decode(Vec<u8>),
    /// Reinitialize the radio exactly once, then wait again.
    Restart,
}

/// The acquisition loop's reaction to one wait outcome: a packet goes to the
/// decoder unchanged; a watchdog timeout forces exactly one
/// reinitialization before the next wait, and nothing else.
pub fn wait_outcome_action(outcome: WaitOutcome) -> (a: LoopAction)
    ensures
        outcome is TimedOut <==> a is Restart,
        outcome matches WaitOutcome::Packet(p) ==> (a matches LoopAction::Decode(q) && q == p),
{
    match outcome {
        WaitOutcome::Packet(p) => LoopAction::Decode(p),
        WaitOutcome::TimedOut => LoopAction::Restart,
    }
}

} // verus!
