# touchhle

The app picker of the emulator and its bridge to the native camera and
microphone capture, as a library whose behaviour is stated in Verus
contracts and proved.

- `src/` is the verified library:
  - `capture`, `capture_status`, `capture_clock`, `microphone`: the camera
    capture header, NV21 to BGRA conversion, the capture status file, the
    capture timestamp and the microphone read cursor;
  - `icon_grid`: paging the games into icon pages and what each icon slot
    shows;
  - `ios_version`, `options`, `device_model`, `resolution`: the choices of the
    quick options panel, their dropdown tags and names;
  - `quick_options`: the panel's settings and how each event changes them;
  - `option_args`: the command-line options that the settings give the game;
  - `ipa_watch`: noticing a game copied into the games folder;
  - `copyright_pages`: where each page of the license text starts and ends;
  - `app_order`: the order in which the games are listed;
  - `app_list`, `decimal`: messages, titles and file-name checks.
- `tests/` runs the library on concrete values.
- `app/` holds what touches files, the clock and the environment, and the
  measuring of text lines for the license pages.
