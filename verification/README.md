# Verified core of a multistage x86_64 bootloader

`src/` holds what the boot stages compute, verified with Verus:

- `serial`, `terminal`: the bytes written to COM1 for debug text (non-printable bytes replaced).
- `disk`, `load`: the disk address packet of the first stage, the reads of the second stage,
  the 256 chunks in which the kernel is read and moved above 1 MiB, the block-move
  descriptor table, and the memory layout of everything loaded.
- `descriptor`: the segment descriptors of the BIOS block move.
- `mmap`: E820 entries and the step of the scan that fills the 32-entry table.
- `rsdp`: the ACPI pointer and its search in the BIOS area.
- `vbe`: the VBE controller and mode blocks, and the choice of the graphics mode.
- `boot`, `tss`: the boot information handed from stage to stage, and the task state segment.
- `paging`: the tables that identity-map the first 4 GiB, with a model of the MMU walk.
- `control`: the CR0, CR4 and EFER values for protected and long mode.
- `image`: where each stage goes in the disk image.
- `bytes`: little-endian reading and writing.

`app/` holds the stages' I/O: port writes, BIOS calls, control registers, jumps, and the
image builder's file and process work.
