# metalkit

Bindings for Apple's MetalKit framework on macOS, in two layers.

- `src/` is the verified core, checked by Verus. It holds the framework's
  string constants and raw enum values, the texture-loader options and their
  encoding into the option record that the Swift bridge reads, the checks a
  request's texts must pass to travel as C strings, and the reading of what
  the bridge hands back: objects or errors, texture arrays, mesh conversions
  and JSON payloads.
- `app/` holds the bridge itself: the `extern "C"` declarations, the handle
  types that own bridge objects, and the methods that call the bridge. Each
  method asks the core to check and encode its request, makes the call, and
  asks the core to read the answer. `MTKView`, its delegate and the
  floating-point geometry types live only here.

The tests under `tests/` exercise the core; the bridge needs macOS.
