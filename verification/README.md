# videotoolbox

Bindings for Apple's VideoToolbox framework (hardware encode/decode, pixel
transfer and rotation, multi-pass storage, HDR metadata, motion estimation,
RAW processing and `VTFrameProcessor` pipelines), split in two:

- `src/` is the library, verified with Verus. It holds everything the
  bindings decide: codec and SDK-constant tables, the `OSStatus` error table
  and every error message, the encoder builder and the dictionaries it lowers
  into, the step-by-step bring-up of a compression session, the bookkeeping
  of each submitted frame (whose native reference is released exactly once,
  and whose first completion wins), the parameter-change handler of RAW
  sessions (transitions and one-at-a-time invocation), run-time symbol
  resolution, profile-level lookup by name, and how every native status is
  reported. Native objects appear there as addresses (`usize`), and
  `CFString` constants by their SDK symbol names.
- `app/` is the native layer: the `extern "C"` declarations, the calls into
  the frameworks and the Swift bridge, the callbacks, and the owning handles.
  It asks the library what to do and what each status means.

Floating-point settings (frame rate, quality) travel through the library as
their IEEE-754 bit patterns; the native layer turns them back into numbers.

`tests/` exercises the library on concrete values.
