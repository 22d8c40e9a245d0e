//! Handing the hardware to user firmware.
//!
//! When bring-up is done the runtime makes the one value that stands for
//! the peripherals and the one that describes the clocks, and calls user
//! firmware with both. User firmware owns them from then on. What it gives
//! back, if it returns at all, is a [`Handover`]: the peripherals, given up.

use vstd::prelude::*;

verus! {

/// A frequency in hertz.
#[derive(Clone, Copy, Debug, PartialEq, Eq, Structural)]
pub struct Hertz(pub u32);

/// Clock frequencies as they stand when user firmware is entered.
#[derive(Clone, Copy, Debug, PartialEq, Eq, Structural)]
pub struct Clocks {
    /// PSI clock frequency.
    pub psi: Hertz,
    /// Advanced Peripheral Bus 1 clock frequency.
    pub apb1: Hertz,
}

/// Ownership of the peripherals of the chip.
///
/// There is no way to make one outside this module, and none to copy one:
/// the only `Peripherals` user firmware ever holds is the one that
/// [`wrap_main`] hands it.
pub struct Peripherals {
    _private: (),
}

/// The peripherals, given up by user firmware.
pub struct Handover {
    _private: (),
}

impl Clocks {
    /// The PSI clock frequency after reset, in hertz.
    pub const PSI_RESET_HZ: u32 = 600_000_000;

    /// The APB1 clock frequency after reset, in hertz.
    pub const APB1_RESET_HZ: u32 = 24_000_000;

    /// The clocks as reset leaves them, which they stay until user firmware
    /// reconfigures the clock tree.
    pub open spec fn spec_reset() -> Clocks {
        Clocks { psi: Hertz(Self::PSI_RESET_HZ), apb1: Hertz(Self::APB1_RESET_HZ) }
    }

    /// The clocks as reset leaves them, which they stay until user firmware
    /// reconfigures the clock tree.
    pub fn reset() -> (clocks: Clocks)
        ensures
            clocks == Self::spec_reset(),
    {
        Clocks { psi: Hertz(Self::PSI_RESET_HZ), apb1: Hertz(Self::APB1_RESET_HZ) }
    }
}

impl Handover {
    /// Gives the peripherals up.
    pub fn new(peripherals: Peripherals) -> Handover {
        let Peripherals { _private } = peripherals;
        Handover { _private }
    }
}

/// Calls user firmware with the peripherals and the reset clocks, and drops
/// the handover it returns.
///
/// `main` is called once, with the [`Peripherals`] made here and with
/// [`Clocks::spec_reset`]; all that is asked of it is that it accepts those.
/// When this function returns, `main` has returned a handover.
pub fn wrap_main<F: FnOnce(Peripherals, Clocks) -> Handover>(main: F)
    requires
        forall|peripherals: Peripherals| #[trigger]
            call_requires(main, (peripherals, Clocks::spec_reset())),
    ensures
        exists|peripherals: Peripherals, handover: Handover| #[trigger]
            call_ensures(main, (peripherals, Clocks::spec_reset()), handover),
{
    let p: Peripherals = Peripherals { _private: () };
    let c: Clocks = Clocks::reset();
    let _ = main(p, c);
    // the actual Handover is dropped to ensure ownership is returned
}

} // verus!
