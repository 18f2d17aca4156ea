# onebot_forward

A OneBot forwarding service: it connects to a OneBot implementation as a
websocket client, serves SDK clients as a websocket server, passes events and
API calls between them, filters them by black and white lists kept in a
database, answers list commands from super users, and mails a notice when the
bot goes offline.

- `src/` is the verified library (Verus):
  - `text` — whitespace, decimal numbers, string building;
  - `template` — `{key}` placeholder replacement;
  - `command` — the list commands: grammar, rule-table operation, feedback;
  - `rule`, `database_cache` — stored rules, the in-memory lists and the
    pass/refuse decision;
  - `cache` — a key-value cache with expiry;
  - `config`, `mail`, `onebot` — configuration, notice mail, OneBot messages;
  - `impl_side`, `sdk_side` — the decisions of the two websocket ends.
- `app/` is the program around it: command line, configuration files,
  logging, the database, SMTP, and the websocket I/O.
- `tests/` exercises the library.
