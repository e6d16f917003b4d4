# emulator

An emulator for the MOS 6502 processor, written in Verus: every function of
the library carries a contract, and Verus proves that the code meets it.

## Layout

- `src/clock.rs`, `src/pc.rs`: the cycle counter and the 16-bit program counter.
- `src/flags.rs`: the status register; its reserved bit always reads as set.
- `src/mem.rs`: the `Memory` trait, whose contracts speak of a map from
  addresses to bytes, and three memories: empty, fixed (a block of bytes at
  address zero) and virtual (fixed blocks attached at base addresses that may
  not overlap).
- `src/cpu.rs`: the processor (registers, flags, memory, program counter,
  clock), its abstract state `CpuView`, and the stack.
- `src/operand.rs`: the addressing modes: effective addresses, page-crossing
  cycles, reads and writes, and their assembler text.
- `src/instruction.rs`, `src/decoder.rs`: the instruction set, base cycle
  counts, and the decoding of instructions from bytes.
- `src/exec/`: the execution of each instruction, and `dispatch`, which
  charges the base cycles and runs an instruction. Each instruction's
  behaviour is a spec function over `CpuView`; the executable code is proved
  to follow it.
- `src/text.rs`: hexadecimal text for listings and trace lines in the form of
  the nestest "golden log".
- `src/laws.rs`: properties that span several operations, proved once for
  all inputs: what a read gives back of a write, that PLA undoes PHA, that
  RTS returns after JSR and RTI after BRK, that decimal encoding round-trips,
  and more.

Where the processor as emulated here would stop on an input (a stack pointer
that wraps, a decimal result that cannot be encoded), the functions leave
that input out by their `requires`, and the spec functions give `None` there.

## Outside crates

`byteorder` assembles and splits little-endian words for the memory's 16-bit
accesses.
