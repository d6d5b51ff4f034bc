# projectm_sdl

A front end for the projectM music visualizer: an SDL3 window rendering
projectM, audio captured from an SDL input device, keyboard controls and,
on macOS, a menu bar.

- `src/` is the verified library. It holds the decisions the program
  takes: how settings from the configuration file, the command line and the
  environment combine (`settings`), the menu bar's state and the meaning of a
  selected item (`menu_bar`), what the event loop and the render loop do
  about each event, command, window size and frame time (`main_loop`), the
  rotation through input devices (`audio`), projectM's output size (`video`)
  and the texts the program shows (`text`, `playlist`).
- `app/` is the program around it: argument and file parsing with clap and
  confique, the SDL3 window, OpenGL context and event pump, the projectM
  instance and playlist, audio capture, the muda menu bar, and the two
  threads that run the loops.
- `tests/` exercises the library on concrete values.
