# dfaudit

`dfaudit` audits Dockerfiles and Containerfiles: it finds them, builds
each image with Podman or Docker, lists the Python and R packages
installed in it, writes one JSON report per project and an HTML index page
of all reports.

## Layout

- `src/` is the library, verified with Verus: the package-listing parsers
  (`audit`), the label grammar that yields an image's description
  (`descrip`), the conversations with the container engines as state
  machines (`container`), the choice of definitions (`explore`), the
  placement of reports and the index page (`report`, `paths`), the order of
  a run (`workflow`) and the log level (`logging`).
- `app/` is the command: argument parsing, processes, files, JSON
  (de)serialisation, time stamps, logging and the progress spinner. It
  performs what the library asks for and hands back what happened.
- `tests/` exercises the library on concrete values.
