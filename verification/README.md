# nvg

`nvg` is the command-line client of the Navegante platform: device-flow
login, API tokens, organizations, datacenters, infrastructure projects, apps
and deployments, all through the `/cli/v1` JSON API.

## Layout

- `src/` is the library, verified with Verus:
  - `text` — decimal numbers (rendering and parsing), truncation and padding
    of table columns;
  - `cli` — the command tree and the parser of the nested
    `nvg projects <project_id> apps ...` forms;
  - `config` — profiles: which API and token a command uses, and how login
    and logout change them;
  - `json` — the few JSON operations the client needs;
  - `error` — API errors: from HTTP status and body to error, message and
    exit code;
  - `models` — the records of the API;
  - `api` — where each call goes, what it sends, how poll answers are read;
  - `render` — tables and detail views as lines of text;
  - `commands` — routing, authorization, and the steps of the polling loops
    (device login, payment wait, log following).
- `app/` is the program around it: argument parsing, HTTP, the config file,
  waiting, spinners and printing.
- `tests/` runs the library on concrete values.
