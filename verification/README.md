# viewlume

The logic of the Viewlume image viewer as a verified library, with the
viewer program around it.

- `src/` is the library, checked by Verus:
  - `paths`: file names and extensions of slash-separated paths, and which
    files are images the viewer shows;
  - `natural`: natural ordering of names ("img2" before "img10") and a stable
    sort by it;
  - `navigation`: the folder being browsed, moving through it, and which
    neighbours to prefetch;
  - `controls`: what keys, double clicks and edge buttons do;
  - `pipeline`: which background loads are queued, which results still
    matter, and how the workers are sized;
  - `decoder`: decoding into upright RGBA pixels and making thumbnails;
  - `config`, `cache`, `canvas`, `filmstrip`, `settings_dialog`: settings and
    small types shared with the program.
- `tests/` runs the library on concrete values.
- `app/` is the program: the window and its painting, file and thread work,
  the settings file, and the caches.
