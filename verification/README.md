# bots_firmware

Firmware and head-computer software of a three-wheeled robot, with the parts
that decide what goes on the wires verified by Verus.

- `src/` — the verified library:
  - `can_frame`: standard-identifier CAN frames (data and remote) with their
    invariant; identifiers are checked through `embedded-hal`'s `StandardId`.
  - `tinymovr`: the Tinymovr motor-controller protocol: endpoint identifiers,
    the frames for each command, and the device information read from a reply.
  - `le_bytes`: little-endian encoding of the 32-bit setpoint payloads.
  - `serial_echo`: the dongle's upper-case echo and its write progress.
  - `spi_buffer`: the buffering in front of the FTDI SPI link.
- `app/` — everything that touches hardware: the Linux program that drives the
  wheel controllers over SocketCAN and the head displays, the STM32 mainboard
  firmware (robot and dongle roles), the buffered FTDI SPI writer, and the
  floating-point wheel kinematics.
- `tests/` — tests of the library.
