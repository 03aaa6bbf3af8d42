# stm32mp1_openamp

OpenAMP support for the Cortex-M4 core of the STM32MP1, as a Verus-verified
library (`src/`) and the firmware around it (`app/`).

- `src/fifo.rs` — the fixed-size mailbox ring buffer, with its FIFO laws.
- `src/resource_table.rs` — resource-table entries and physical/device
  address translation through carve-outs and device-memory windows.
- `src/io.rs`, `src/state.rs` — libmetal I/O regions and runtime state.
- `src/rpmsg.rs`, `src/vring.rs`, `src/virtio.rs`, `src/rpmsg_virtio.rs` —
  rpmsg headers, name-service announcements, message framing, vring and
  virtio descriptions.
- `src/ipcc.rs` — IPCC register values and the receive-interrupt steps.
- `src/platform.rs` — mailboxes, Unicache and its MMU, crossbar IRQ
  registers, wake-up generator.
- `src/firmware.rs`, `src/gpio.rs` — the firmware's resource table,
  start-up decisions, and LED register values.

`app/` performs the register and memory accesses with the values that the
library computes; `tests/` runs the library on concrete values.
