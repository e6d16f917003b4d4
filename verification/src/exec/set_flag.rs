use vstd::prelude::*;
use crate::cpu::Mos6502;
use crate::exec::{ExecError, ExecResult};
use crate::flags::{raised, Flags};
use crate::mem::Memory;

verus! {

/// Sets the flags of `flag_selector` (SEC, SED, SEI)
pub fn exec<M: Memory>(cpu: &mut Mos6502<M>, flag_selector: Flags) -> (r: ExecResult)
    ensures
        final(cpu)@ == old(cpu)@.with_p(raised(old(cpu)@.p, flag_selector.bits)),
        r == Ok::<(), ExecError>(()),
{
    cpu.flags.set(flag_selector);
    Ok(())
}

} // verus!
