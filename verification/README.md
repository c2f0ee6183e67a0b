# sherwood

A static site generator for directories of Markdown files, written as a
Verus-verified library with a thin program around it.

- `src/` is the library. Its functions are verified by Verus against their
  `requires`/`ensures` contracts, apart from small trusted wrappers: the
  calls into outside crates (`markdown`, `pulldown-cmark`, `chrono`,
  `lightningcss`, and some of std's Unicode and path functions) stand behind
  them, and their contracts, which Verus believes, are written down next to
  them.
  - `text`, `path`, `names`: character-level text, paths and name lists.
  - `content`: front matter, dates, ordering (a stable, proved sort), HTML
    validation, Markdown conversion steps, titles, excerpts and list pages.
  - `plugins`, `templates`: parser and template registries, page data,
    breadcrumbs and navigation parts.
  - `presentation`, `content_generation`, `components`: page assembly, tables
    of contents, anchors, themes.
  - `generator`, `server`, `styles`, `project`, `cli`, `config`: the decisions
    of site generation, the development server, stylesheet processing, new
    projects and the command line, taken on plain values.
- `app/` is the program: argument parsing, reading and writing files, the
  serde forms of the configuration and front matter, stylesheet bundling and
  the HTTP server.
- `tests/` runs the library on concrete inputs.

The laws of the library are public proof functions whose names begin with
`law_`; for example `law_sorted_files_are_pairwise_ordered`,
`law_anchor_is_url_safe`, `law_mapped_extension_has_parser` and
`law_registration_history`.
