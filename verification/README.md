# rs-ddraw

A DirectDraw compatibility layer for legacy 2D games. The decisions it makes
(surface formats, blits, scaling, configuration, window and mouse handling,
the settings overlay, import-table hooking) are written in Verus and proved
against their contracts; the operating-system side hands them plain values.

## Layout

- `src/` — the verified library, one module per concern:
  - `pixel`, `grid`, `blit`, `surface`, `scale` — pixel formats, surface
    memory, clipped and colour-keyed blits, fills, flips and up-scaling;
  - `state`, `config`, `fps_limiter`, `gamma`, `mouse`, `window` — the shared
    state and its reentrant lock, INI parsing (main file and per-executable
    override), frame pacing, gamma ramps, cursor locking, the window
    procedure's answer to each message and the render viewport;
  - `ddraw`, `hook`, `dinput`, `media` — the DirectDraw objects (display
    modes, cooperative levels, palettes, clippers) and the answers given to
    hooked system calls;
  - `overlay` — the in-game settings menu and how its values are saved;
  - `pe` — import-address-table lookup and patching in a module image;
  - `render` — the backend order, which backend is kept, when a frame is
    uploaded and the OpenGL viewport;
  - `screenshot`, `text`, `debug` — screenshots (PNG encoding is done by the
    `png` crate), text helpers and diagnostics.
- `tests/` — tests of the library on concrete values.
- `app/` — the unverified shell: INI reading through the Windows API,
  frame pacing with the clock, the renderer thread's loop, floating-point
  mouse mapping and aspect ratio, screenshot files, and the fractal demo
  images.
