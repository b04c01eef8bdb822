# easy-template

Registers files as templates and copies them back out.

    easy-template -r <filename>   register <filename> under ~/.template/<extension>/
    easy-template -c              choose a kind and a template, and copy it here
    easy-template -c <extension>  choose a template of that kind and copy it here

Files without an extension are registered under `~/.template/various/`.
A copy is named after what the user types (or `template` when nothing is
typed), followed by `.` and the text after the last `.` of the template's
path.

Layout:

- `src/` is the verified library: command-line classification (`args`),
  file-name rules (`names`), template paths (`paths`), numbered menus and
  the parsing of the user's choice (`selection`), and the decisions of a
  run as a state machine (`session`).
- `app/main.rs` runs that state machine and performs the file-system work
  and the conversation with the user.
- `tests/` exercises the library on concrete values.
