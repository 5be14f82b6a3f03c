# pbuilder

Reproducible builds of PArch system images for Pi-style single-board
computers, split into a verified library and a thin command-line program.

- `src/` (Verus): where manifests, foundation archives and images live
  (paths kept as the operating system's bytes, joined as a Unix `PathBuf`
  joins them; where a path is shown as text, it is the lossy
  UTF-8 text that `Path::display` writes), which
  file a download URL names, whether a cached foundation or image is kept,
  how the mock SD card's partitions and mount points are named, and the
  exact privileged command lines (`mount`, `umount`, `bsdtar`, `sync`,
  `xz`). Building an image (`image_build`) and reading a manifest then
  fetching its foundation (`fetch_steps`, `read_manifest_and_fetch_foundation`)
  are step functions: from a state and what the last step reported, the next
  state and the next step to carry out. `src/laws.rs` and
  `src/build_laws.rs` hold the properties proved across functions.
- `app/`: the `pb` program: argument parsing, reading and parsing manifest
  YAML, downloads with a progress bar, loop devices and running commands;
  it carries out the steps that the library decides.
- `tests/`: tests of the library on concrete values.
