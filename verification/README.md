# graphics_labs

Three computer-graphics labs built on Bevy: a torus whose colour is chosen
from a palette (lab 1), an automatic once-a-second colour change with an
optional smooth transition (lab 2), and four objects placed around the centre
of a scene that can orbit it (lab 3). F1, F2, F3 and Tab switch between labs.

Layout:

- `src/` — the library, verified with Verus: the choice of the lab and its
  window title (`lab`), keys (`input`), whitespace trimming of the start
  argument (`text`), the repeating timer in nanoseconds, advanced by bevy's
  `Timer` (`timer`), and each lab's per-frame decisions and state
  (`lab1`, `lab2`, `lab3`). `Lab1App` and `Lab2App` run whole frames of
  labs 1 and 2 and carry the laws over many frames (the colour changes once
  per interval whatever the frame rate; a manual choice holds a full
  interval; the material always shows the palette colour).
- `app/` — the Bevy program: windows, scenes, rendering, input and the
  floating-point geometry of the graphic objects, calling the library for
  every decision.
- `tests/` — tests of the library.
