use vstd::prelude::*;

verus! {

/// The RNG peripheral's register block, as the values last written to (or,
/// for `value`, presented by) each register.
#[derive(Clone, Copy, Debug, PartialEq, Eq, Structural)]
pub struct RngRegisters {
    /// START task: writing 1 begins generation of one byte.
    pub task_start: u32,
    /// VALRDY event: set by the peripheral when `value` holds a fresh byte.
    pub event_valrdy: u32,
    /// Interrupt enable register.
    pub inten: u32,
    /// Interrupt enable-set register.
    pub intenset: u32,
    /// Interrupt enable-clear register.
    pub intenclr: u32,
    /// Output register: the most recent random byte.
    pub value: u8,
}

/// The interrupt controller's view of the RNG interrupt source.
#[derive(Clone, Copy, Debug, PartialEq, Eq, Structural)]
pub struct InterruptLine {
    /// The source is enabled at the controller.
    pub enabled: bool,
    /// An interrupt from the source is pending.
    pub pending: bool,
}

impl RngRegisters {
    /// Registers after the peripheral's interrupt has been enabled.
    pub open spec fn interrupts_enabled(self) -> RngRegisters {
        RngRegisters { inten: 1, intenset: 1, ..self }
    }

    /// Registers after the peripheral's interrupt has been disabled.
    pub open spec fn interrupts_disabled(self) -> RngRegisters {
        RngRegisters { intenclr: 1, inten: 0, ..self }
    }

    /// Registers after generation of one byte has been requested: the
    /// event is cleared, the interrupt enabled and the START task triggered.
    pub open spec fn started(self) -> RngRegisters {
        RngRegisters { event_valrdy: 0, task_start: 1, ..self.interrupts_enabled() }
    }

    /// The reset state: all registers zero.
    pub open spec fn reset() -> RngRegisters {
        RngRegisters { task_start: 0, event_valrdy: 0, inten: 0, intenset: 0, intenclr: 0, value: 0 }
    }

    /// A register block in its reset state.
    pub fn new() -> (r: RngRegisters)
        ensures
            r == RngRegisters::reset(),
    {
        RngRegisters { task_start: 0, event_valrdy: 0, inten: 0, intenset: 0, intenclr: 0, value: 0 }
    }

    /// Enables the peripheral's interrupt.
    pub fn enable_interrupts(&mut self)
        ensures
            *final(self) == old(self).interrupts_enabled(),
    {
        self.inten = 1;
        self.intenset = 1;
    }

    /// Disables the peripheral's interrupt.
    pub fn disable_interrupts(&mut self)
        ensures
            *final(self) == old(self).interrupts_disabled(),
    {
        self.intenclr = 1;
        self.inten = 0;
    }
}

impl InterruptLine {
    /// A source that is disabled and has nothing pending.
    pub fn new() -> (r: InterruptLine)
        ensures
            r == (InterruptLine { enabled: false, pending: false }),
    {
        InterruptLine { enabled: false, pending: false }
    }

    /// Enables the source at the controller.
    pub fn enable(&mut self)
        ensures
            *final(self) == (InterruptLine { enabled: true, ..*old(self) }),
    {
        self.enabled = true;
    }

    /// Disables the source at the controller.
    pub fn disable(&mut self)
        ensures
            *final(self) == (InterruptLine { enabled: false, ..*old(self) }),
    {
        self.enabled = false;
    }

    /// Clears a pending interrupt of the source.
    pub fn clear_pending(&mut self)
        ensures
            *final(self) == (InterruptLine { pending: false, ..*old(self) }),
    {
        self.pending = false;
    }
}

} // verus!
