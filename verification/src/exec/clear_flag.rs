use vstd::prelude::*;
use crate::cpu::Mos6502;
use crate::exec::{ExecError, ExecResult};
use crate::flags::{cleared, Flags};
use crate::mem::Memory;

verus! {

/// Clears the flags of `flag_selector` (CLC, CLD, CLI, CLV)
pub fn exec<M: Memory>(cpu: &mut Mos6502<M>, flag_selector: Flags) -> (r: ExecResult)
    ensures
        final(cpu)@ == old(cpu)@.with_p(cleared(old(cpu)@.p, flag_selector.bits)),
        r == Ok::<(), ExecError>(()),
{
    cpu.flags.clear(flag_selector);
    Ok(())
}

} // verus!
