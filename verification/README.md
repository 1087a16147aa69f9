# rusty_lights

An audio-to-LED visualizer: audio is captured, analysed into Mel-band
energies and beats, turned into LED colours by an effect, and sent to LED
controllers over E1.31/sACN, DDP or Art-Net, with an optional browser view.

## Layout

- `src/` is the library, written in Verus and verified by it: the sample
  ring buffer (first in, first out), PCM decoding, the choice of capture
  backend, transform-size checks and beat spacing, colour types, gradients
  and effect names, byte-order and gamma handling, the frame-rate limiter's
  decisions and the idle timeout, the packet layouts of the output
  protocols, the browser frame format and request routing, configuration
  defaults and the WLED auto-configuration rules. Each function states its
  result in a contract, except the clock reading of the frame-rate limiter,
  of which nothing can be said. Calls into other crates (`uuid`, and a few
  std functions) go through small trusted wrappers whose contracts say what
  the wrapped function guarantees.
- `app/` is the program around it: command line, configuration files,
  audio capture, the floating-point signal processing and effects, sockets,
  threads and the web server.
- `tests/` exercise the library on concrete values.
