# jlink_config

A verified library for configuring SEGGER J-Link probes: it builds the
JLink Commander scripts, reads JLink's output (version banner, nickname
replies), and makes the decisions of detection, nickname setting,
installation and PATH persistence. Every function in `src/` carries a
contract; Verus proves all of them except two trusted wrappers around std,
whose contracts it takes as given: `text::push_char` (`String::push`) and
`platform::windows::to_lowercase` (`str::to_lowercase`, whose result is named
by the uninterpreted `lowercase`).

- `src/text.rs` – characters, trimming, lines, substring search, decimals.
- `src/jlink/` – scripts, output parsing, nickname and detection steps.
- `src/download/` – download locations and installer decisions.
- `src/platform/` – search directories and PATH updaters per platform.
- `app/` – the processes, files, registry and timers that run the steps.
- `tests/` – tests on concrete values.

The decisions that alternate with outside work (detection, setting a
nickname, watching the Windows installer, persisting the PATH) are step
functions: the caller performs the step the library asks for and hands
back what it observed.
