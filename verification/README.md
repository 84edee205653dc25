# rustsega

A Sega Master System emulator whose machine model is verified with Verus.

## Layout

- `src/` is the verified library.
  - `cpu/`: the Z80 register file (`pc_state`), the flag computations
    (`status_flags`, `flagtables`), the instructions (`instruction_set`,
    `extended_instruction_set`), their decoding (`instructions`, with the
    spec `cpu_step` that every executed op code follows) and the core that
    steps the CPU and takes interrupts (`cpu_core`).
  - `memory/`: flat 64 KiB memory, the paged Master System memory map and
    the cartridge ROM.
  - `graphics/`: the VDP (ports, VRAM, colour RAM, registers, interrupt
    timing) and colour conversion.
  - `audio/`: the SN76489 sound chip's channels and mixing.
  - `ports.rs`, `interruptor.rs`, `clocks.rs`, `sega.rs`: the I/O bus, the
    interrupt delivery, the cycle counter and the console's run decisions.
  - `laws.rs`: properties that relate several operations (read after write,
    push then pop, paging, sound latches, VDP read-back and more), proved.
- `app/` is the SDL2 front end: command line, cartridge file loading,
  window, audio queue and the run loop.
- `tests/` runs the library on concrete inputs.
