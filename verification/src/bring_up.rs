//! The bring-up sequence.
//!
//! Between reset and user firmware the processor goes through a fixed
//! series of steps, each of which prepares what the next relies on. The
//! series is a state machine with one way through it: [`BringUpState::step`]
//! gives, for the state the processor is in, the operation to perform and
//! the state that the operation leads to. The code that runs on the
//! processor performs the operations; which operation comes when is decided
//! here.

use vstd::prelude::*;

verus! {

/// How far bring-up has come.
#[derive(Clone, Copy, Debug, PartialEq, Eq, Structural)]
pub enum BringUpState {
    /// The processor has left reset; nothing has been set up.
    Reset,
    /// The vendor instruction-set extension is enabled.
    ExtensionsEnabled,
    /// Instruction cache, data cache, branch history and branch target
    /// buffer hold nothing stale.
    CachesInvalidated,
    /// No interrupt source is enabled.
    InterruptsMasked,
    /// The stack register points at the high end of the stack region.
    StackEstablished,
    /// Uninitialised static storage is all zero.
    ZeroedStatics,
    /// User firmware has been called and has returned.
    HandoverInvoked,
    /// The processor waits for interrupts, for good.
    Halted,
}

/// One operation of the bring-up sequence.
#[derive(Clone, Copy, Debug, PartialEq, Eq, Structural)]
pub enum BringUpAction {
    /// Set the bits `bits` of the control and status register `csr`,
    /// leaving its other bits alone.
    SetCsrBits { csr: u16, bits: u64 },
    /// Write `value` to the control and status register `csr`.
    WriteCsr { csr: u16, value: u64 },
    /// Point the stack register `size` bytes above the start of the stack
    /// region.
    SetStackPointer { size: usize },
    /// Clear the uninitialised static storage.
    ZeroStatics,
    /// Call the handover protocol.
    InvokeHandover,
    /// Wait for an interrupt.
    WaitForInterrupt,
}

/// The machine extension status register of T-Head cores.
pub const MXSTATUS: u16 = 0x7C0;

/// The bit of `MXSTATUS` that enables the T-Head instruction-set extension
/// (bit 22).
pub const MXSTATUS_THEADISAEE: u64 = 0x40_0000;

/// The machine cache operation register of T-Head cores.
pub const MCOR: u16 = 0x7C2;

/// The bits of `MCOR` that select both caches, invalidate them, and
/// invalidate the branch history table and the branch target buffer.
pub const MCOR_INVALIDATE_ALL: u64 = 0x30013;

/// The machine interrupt-enable register.
pub const MIE: u16 = 0x304;

/// The size of the stack region in bytes.
pub const STACK_SIZE: usize = 1024;

impl BringUpState {
    /// The position of the state in the sequence, from 0 for `Reset` to 7
    /// for `Halted`.
    pub open spec fn spec_rank(self) -> nat {
        match self {
            BringUpState::Reset => 0,
            BringUpState::ExtensionsEnabled => 1,
            BringUpState::CachesInvalidated => 2,
            BringUpState::InterruptsMasked => 3,
            BringUpState::StackEstablished => 4,
            BringUpState::ZeroedStatics => 5,
            BringUpState::HandoverInvoked => 6,
            BringUpState::Halted => 7,
        }
    }

    /// The state that follows this one. `Halted` follows itself.
    pub open spec fn spec_next(self) -> BringUpState {
        match self {
            BringUpState::Reset => BringUpState::ExtensionsEnabled,
            BringUpState::ExtensionsEnabled => BringUpState::CachesInvalidated,
            BringUpState::CachesInvalidated => BringUpState::InterruptsMasked,
            BringUpState::InterruptsMasked => BringUpState::StackEstablished,
            BringUpState::StackEstablished => BringUpState::ZeroedStatics,
            BringUpState::ZeroedStatics => BringUpState::HandoverInvoked,
            BringUpState::HandoverInvoked => BringUpState::Halted,
            BringUpState::Halted => BringUpState::Halted,
        }
    }

    /// The operation that leads from this state to the next.
    pub open spec fn spec_action(self) -> BringUpAction {
        match self {
            BringUpState::Reset => BringUpAction::SetCsrBits {
                csr: MXSTATUS,
                bits: MXSTATUS_THEADISAEE,
            },
            BringUpState::ExtensionsEnabled => BringUpAction::SetCsrBits {
                csr: MCOR,
                bits: MCOR_INVALIDATE_ALL,
            },
            BringUpState::CachesInvalidated => BringUpAction::WriteCsr { csr: MIE, value: 0 },
            BringUpState::InterruptsMasked => BringUpAction::SetStackPointer { size: STACK_SIZE },
            BringUpState::StackEstablished => BringUpAction::ZeroStatics,
            BringUpState::ZeroedStatics => BringUpAction::InvokeHandover,
            BringUpState::HandoverInvoked => BringUpAction::WaitForInterrupt,
            BringUpState::Halted => BringUpAction::WaitForInterrupt,
        }
    }

    /// The state reached from this one after `steps` steps.
    pub open spec fn spec_after(self, steps: nat) -> BringUpState
        decreases steps,
    {
        if steps == 0 {
            self
        } else {
            self.spec_next().spec_after((steps - 1) as nat)
        }
    }

    /// The operation to perform in this state, and the state it leads to.
    pub fn step(self) -> (r: (BringUpState, BringUpAction))
        ensures
            r.0 == self.spec_next(),
            r.1 == self.spec_action(),
    {
        match self {
            BringUpState::Reset => (
                BringUpState::ExtensionsEnabled,
                BringUpAction::SetCsrBits { csr: MXSTATUS, bits: MXSTATUS_THEADISAEE },
            ),
            BringUpState::ExtensionsEnabled => (
                BringUpState::CachesInvalidated,
                BringUpAction::SetCsrBits { csr: MCOR, bits: MCOR_INVALIDATE_ALL },
            ),
            BringUpState::CachesInvalidated => (
                BringUpState::InterruptsMasked,
                BringUpAction::WriteCsr { csr: MIE, value: 0 },
            ),
            BringUpState::InterruptsMasked => (
                BringUpState::StackEstablished,
                BringUpAction::SetStackPointer { size: STACK_SIZE },
            ),
            BringUpState::StackEstablished => (
                BringUpState::ZeroedStatics,
                BringUpAction::ZeroStatics,
            ),
            BringUpState::ZeroedStatics => (
                BringUpState::HandoverInvoked,
                BringUpAction::InvokeHandover,
            ),
            BringUpState::HandoverInvoked => (BringUpState::Halted, BringUpAction::WaitForInterrupt),
            BringUpState::Halted => (BringUpState::Halted, BringUpAction::WaitForInterrupt),
        }
    }

    /// Whether the state is `Halted`.
    pub fn is_halted(self) -> (halted: bool)
        ensures
            halted == (self == BringUpState::Halted),
    {
        match self {
            BringUpState::Halted => true,
            _ => false,
        }
    }

    /// The sequence is a strict total order: every step but the last moves
    /// one position on, no step leads back to `Reset`, and `Halted` is left
    /// by no step.
    pub proof fn lemma_strictly_sequential(self)
        ensures
            self != BringUpState::Halted ==> self.spec_next().spec_rank() == self.spec_rank() + 1,
            self.spec_next() != BringUpState::Reset,
            BringUpState::Halted.spec_next() == BringUpState::Halted,
            self.spec_rank() <= 7,
    {
    }

    /// Stepping moves the position on by the number of steps, and stops at
    /// `Halted`.
    pub proof fn lemma_after(self, steps: nat)
        ensures
            self.spec_after(steps).spec_rank() == (if self.spec_rank() + steps <= 7 {
                self.spec_rank() + steps
            } else {
                7
            }),
        decreases steps,
    {
        if steps > 0 {
            self.spec_next().lemma_after((steps - 1) as nat);
        }
    }

    /// From any state the sequence reaches `Halted`, after as many steps as
    /// the state is positions away from it, and stays there: from `Reset`
    /// after seven.
    pub proof fn lemma_reaches_halted(self, steps: nat)
        requires
            self.spec_rank() + steps >= 7,
        ensures
            self.spec_after(steps) == BringUpState::Halted,
    {
        self.lemma_after(steps);
    }

    /// User firmware is called in one state only, and that state comes after
    /// the extension is enabled, the caches are invalidated, interrupts are
    /// masked, the stack is established and the statics are zeroed.
    pub proof fn lemma_handover_comes_last(self)
        ensures
            self.spec_action() == BringUpAction::InvokeHandover <==> self
                == BringUpState::ZeroedStatics,
            self.spec_next().spec_action() == BringUpAction::InvokeHandover ==> self.spec_action()
                == BringUpAction::ZeroStatics,
            self.spec_action() == BringUpAction::InvokeHandover ==> self.spec_rank()
                > BringUpState::InterruptsMasked.spec_rank() && self.spec_rank()
                > BringUpState::StackEstablished.spec_rank(),
    {
    }
}

} // verus!
