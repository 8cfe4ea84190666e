# Nur

Nur formats USB sticks and writes bootable ISO images to them, from a small
egui window. This crate is its verified core, written in Verus.

- `src/` — the library, every function with a contract proved by Verus:
  partition layout and the MBR sector, ISO classification, the partition
  window that confines FAT32 writes, the sysfs and mount-table readers, the
  udisks2 error classification and option names, the mount search of the file
  browser, the copy and verification steps of the image writer, the form of the
  main window, the screenshot coordinators, the theme, and the lint rules of
  the build tool.
- `tests/` — tests of the library on concrete values.
- `app/` — the I/O around it: sysfs and `/proc/mounts` reads, D-Bus calls to
  udisks2, the `gpt` and `fatfs` writers, the file dialog, PNG saving, the egui
  window and the lint tool's file walk.
