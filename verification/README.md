# librarian

The rules of a self-hosted book library's web client, written in Verus and
proved against their contracts.

## Layout

- `src/` — the verified library.
  - `perms.rs` — group and specific permission sets, the presets, and their
    `group-specific` text form.
  - `edit_kind.rs` — edit operations, statuses and kinds with their stored codes.
  - `book_edit.rs` — proposed changes to books and people, and the list
    operations that build them.
  - `compare.rs` — the comparison view of two edits: its rows and the map of
    set fields.
  - `api.rs` — request and query types; list paging (`SimpleListQuery`).
  - `request_url.rs` — the addresses of the server's JSON interface, with
    percent-encoded search text.
  - `util.rs`, `text.rs` — readable file sizes, number prefixes, and the
    character-level string work the rest relies on.
  - `config.rs`, `member.rs`, `ids.rs` — settings, member preferences and
    identifiers.
  - `ui/` — the decisions of the pages: tag and field editing, popups, paged
    loading, selection, votes on edits, the multi-select control, the search
    popup and the authorization query.
- `tests/` — tests of the library on concrete values.
- `app/` — the browser program around the library: address reading, requests
  to the server, and the JSON forms of library values.

Each public function states its result in `ensures` over spec functions; the
laws that relate several functions are public proof functions named `law_*`.
