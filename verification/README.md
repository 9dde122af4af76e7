# wasmos

A small x86_64 UEFI kernel that runs a WebAssembly shell. The library in
`src/` holds the kernel's decisions, proved by Verus against their
contracts:

- `interrupts` — the entries each interrupt table is built from and which
  vector reaches which handler, what every handler does (log header,
  acknowledgement to the local APIC, divergence), and the local APIC vector
  settings, and installing a table: afterwards the processor's IDT
  register (modelled by `processor::ProcessorIdt`) designates it.
- `processor` — the model of the IDT register, and the trusted load.
- `log` — the stdio slot that accepts one port, once.
- `memory` — the spans of the firmware memory map that the heap claims.
- `guest` — the host functions `wasmos_print` and `hello` offered to the
  guest, and the import and export names of the guest interface.
- `shell` — the engine the shell runs on and compiling the shell's bytes.
- `runner` — the QEMU command line, the boot image path, the boot status.
- `exec` — the processor waker and the example task's number and log line.

`app/` is the rest: the host runner that starts QEMU, and the kernel code
that touches hardware, firmware and the WebAssembly engine (the parts that
need the bare-metal target are compiled only for `target_os = "uefi"`).
