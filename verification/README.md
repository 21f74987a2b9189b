# ronald-core memory

The memory system of an Amstrad CPC emulator, verified with Verus.

- `src/rom.rs`, `src/ram.rs`: ROM images and RAM whose addresses wrap around a
  power-of-two size.
- `src/cpc_x64.rs`: the 464/664 memory, 64K of RAM under a lower and a selectable
  upper ROM.
- `src/cpc6128.rs`: the 6128 memory, 128K of RAM banked into the CPU's 64K by
  one of eight RAM configurations.
- `src/any_memory.rs`: either of the two.
- `src/traits.rs`: the read, write and management interfaces, with their contracts.
- `src/debug_view.rs`: snapshots for a debugger, including the 64K that the CPU sees.
- `src/test_memory.rs`: a scripted memory for exercising a CPU.
- `src/laws.rs`: properties that span operations (reads give back writes, ROMs are
  read-only, the debugger's composite view agrees with reads, the bank mapping is
  one-to-one, a 6128 under RAM configuration 0 reads like a 64K machine).
- `app/`: loading the ROM images from disk and serialisable copies of the types.

Not provided here:

- Debug events. Reads, writes and clock steps do not send events to a debugger;
  a debugger takes snapshots with `debug_view` instead.
- `Default` for the memories. The system ROM images are not built into the
  library: `new` takes them as `RomImages`, and `app/rom_files.rs` reads them from
  a directory.
