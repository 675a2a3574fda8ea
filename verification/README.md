# Papier

A macOS menu-bar agent that lays a subtle paper-grain veil over every screen,
and the tools that bake the matching Ghostty theme textures and app icon.

- `src/` — the `papier` library, verified with Verus:
  - `coordinator`: the overlay's decisions as a state machine from state and
    event (menu action, notification, timer, outcome of a system call) to the
    next state and the ordered actions the application performs;
  - `menu`: the menu-bar menu as plain values;
  - `exclusion`, `power`, `loginitem`: the per-app exclusion rule, the battery
    decision over the power sources' states, and the login-item reconciliation;
  - `settings`: the persisted preferences, their defaults and sanitising;
  - `catalog`: the texture catalog, the contrast-attenuating veil bake and
    its opt-in warm tint;
  - `grain`: the integer core of the tileable grain engine (catalog specs,
    octave schedule, lattice hash, periodic lattice wrap, fleck layer layout).
- `app/` — the program around it: AppKit windows and menu, IOKit power
  polling, SMAppService login item, the settings file, the floating-point fBm
  and PNG output, and the two asset tools.
- `tests/` — tests of the library.
