# brig

The verified core of brig, a dynamic binary translator that runs AArch64
guests on x86-64 hosts.

- `emitter`, `nodes`, `lowering_spec`, `lowering`: the value graph of a
  translated block, with constant folding as nodes are built, and its
  lowering to x86 instructions over virtual registers; block linking and
  jump threading.
- `encoder`, `width`: the x86 operand and instruction model, with the
  register uses and definitions of each instruction.
- `assembly`: the encoding of each instruction, and of each linked block,
  as the calls of iced-x86's code assembler that emit it.
- `regalloc`: the solid-state register allocator, which maps virtual to
  hardware registers walking a block from its end.
- `bits`, `value`, `register_file`: bit-field helpers, the NZCV computation
  of AddWithCarry, interpreter values and the guest register file.
- `guest_mmu`, `page_fault`, `device_access`, `irq`, `sysreg`,
  `trampoline`, `machine`, `pcie`, `devices`, `fs`: guest page table walks
  and exception entry, the decisions of the page fault handler (with the
  decoding, by iced-x86, of the instruction that touched a device page),
  interrupt vector bookkeeping and the device and filesystem interfaces.

`app/` holds what touches the machine: carrying out device accesses,
reading guest page tables, replaying the assembler calls on iced-x86's
`CodeAssembler`, and rendering translated code.
