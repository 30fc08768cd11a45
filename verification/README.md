# oms

A media organiser for the command line (`oms help`, `read`, `search`,
`info`, `mserv`, `transcode`, `renamemovie`), written as a Verus library
with a thin program around it.

- `src/` is the verified library: command-line parsing, the options of each
  command and how they apply, the decisions each command makes on the files
  it meets, the media server's request reading and routing, and the text
  processing they rest on. `src/foreign.rs` holds the trusted calls into std
  and into the outside crates (`regex`, `diacritics`, `urlencoding`,
  `sha256`, `num_cpus`).
- `app/` is the program: it reads the command line, the file system and the
  network, runs the library's decisions, and prints.
- `tests/` exercises the library through its public interface.
