# glwindow

A verified library that creates Win32 windows with an OpenGL context.

The library decides which call into the system or the driver comes next and what to make of its
result; it makes no call itself.

- `src/window_thread.rs`: the thread of a window, from `new_window` to its last message
- `src/init.rs`: the creation of a window and its context, call by call
- `src/laws.rs`: what holds of every creation, whatever the system replies
- `src/native_formats.rs`, `src/arb_formats.rs`: the pixel formats of the system and of the driver
- `src/pixel_format.rs`, `src/context.rs`: setting a pixel format, creating a context
- `src/geometry.rs`: sizes, places and styles
- `src/text.rs`: UTF-16 and decimal numbers
- `src/protocol.rs`, `src/types.rs`, `src/constants.rs`: calls, replies and values
- `app/`: the thread itself, and the calls on Windows
