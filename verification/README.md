# flatpak_installer

A small installer for Flatpak applications: opened with a `.flatpakref` or
`.flatpak` file, it shows the application and installs it.

- `src/` is the verified library (Verus): checking a ref file's
  `[Flatpak Ref]` group (`ref_file`), reading Flathub's appstream reply
  (`flathub`, through `serde_json` in `json`), the text operations these
  rest on (`text`), the kind of file opened and the command that starts an
  application (`launch`), the worker's replies and progress sizes
  (`transaction`), and the texts and icon path of the window (`ui`).
- `app/` is the GTK/libadwaita program around it: the window, the Flatpak
  worker thread, reading the key file and asking Flathub over HTTP.
- `tests/` runs the library on concrete inputs.
