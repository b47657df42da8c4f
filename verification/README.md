# scap

Screen capture for macOS, with its decisions proved in Verus.

- `src/` is the verified library: output resolutions and frame sizes,
  which windows and displays a stream reads, how samples of a stream become
  frames and pixel buffers (cropping padded rows, dropping alpha, reordering
  to RGB), the start/stop state of a capture, the build
  checks, and the OS version test.
- `app/` holds what runs against the platform: ScreenCaptureKit streams,
  CoreGraphics permissions, channels, and the floating-point geometry of
  capture areas.
- `tests/` exercises the library on concrete values.
