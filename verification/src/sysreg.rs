//! Handlers for guest system registers that are emulated rather than held in
//! the register file.
use vstd::prelude::*;

verus! {

/// The encoding `(op0, op1, CRn, CRm, op2)` of a system register.
pub type SysRegId = (u64, u64, u64, u64, u64);

/// `CNTVCT_EL0`, the virtual count register of the generic timer.
pub const REG_CNTVCT_EL0: SysRegId = (3, 3, 14, 0, 2);

/// The value the guest reads from the generic timer's count.
pub open spec fn generic_timer_value() -> u64 {
    0x6789
}

/// Reads the generic timer: the count is the fixed value `0x6789`.
pub fn generic_timer_read(_reg: SysRegId) -> (r: u64)
    ensures
        r == generic_timer_value(),
{
    0x6789
}

/// Writes to the generic timer are ignored.
pub fn generic_timer_write(_reg: SysRegId, _value: u64) {
}

/// Which emulated system register, if any, an encoding names.
#[derive(Clone, Copy, Debug, PartialEq, Eq, Structural)]
pub enum SysRegHandler {
    GenericTimer,
}

/// The handler of the system register with encoding `reg`, if it is emulated.
pub fn lookup_handler(reg: SysRegId) -> (r: Option<SysRegHandler>)
    ensures
        r == (if reg == REG_CNTVCT_EL0 {
            Some(SysRegHandler::GenericTimer)
        } else {
            None
        }),
{
    if reg.0 == 3 && reg.1 == 3 && reg.2 == 14 && reg.3 == 0 && reg.4 == 2 {
        Some(SysRegHandler::GenericTimer)
    } else {
        None
    }
}

/// Reads an emulated system register through its handler.
pub fn read_sysreg(handler: SysRegHandler, reg: SysRegId) -> (r: u64)
    ensures
        handler == SysRegHandler::GenericTimer ==> r == generic_timer_value(),
{
    match handler {
        SysRegHandler::GenericTimer => generic_timer_read(reg),
    }
}

/// Writes an emulated system register through its handler.
pub fn write_sysreg(handler: SysRegHandler, reg: SysRegId, value: u64) {
    match handler {
        SysRegHandler::GenericTimer => generic_timer_write(reg, value),
    }
}

} // verus!
