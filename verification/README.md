# swupdate-ipc

Client for [SWUpdate](https://sbabic.github.io/swupdate/)'s IPC interface,
with the protocol logic verified in Verus.

- `src/` is the library. `wire` gives each C struct of `network_ipc.h` and
  `progress_ipc.h` its exact byte image (integers little-endian, `size_t` as
  eight bytes, padding as zero bytes) and proves that reading the bytes of a
  message gives the message back. `types`, `control` and `progress` build
  every request, read every reply, check the progress handshake and decode
  progress events; `socket` resolves the socket paths.
- Targets: SWUpdate's IPC uses native byte order and the platform's
  `size_t`. The library encodes the 64-bit little-endian layout (x86_64,
  aarch64, riscv64, ppc64le); `app/` refuses to build for any other target.
- `app/` is the `swupdate-client` command line tool and the async clients
  (`ControlClient`, `Installation`, `ProgressClient`) that do the socket I/O
  with tokio around the library.
- `tests/` exercises the library on concrete messages.
