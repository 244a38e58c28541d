# brioche_merge_manager

A terminal UI for GitHub merge queues, with its core verified by Verus.

- `src/` is the verified library: the pull-request model and its status
  rules (`models`), the list order (`rest`, `sort`), the decoding of GitHub
  GraphQL replies and the retry decisions of a request (`graphql`, `json`),
  the state machine of the interactive list (`app`, `event`, `config`), and
  the styled text of every panel (`view`, `diff`, `text`). Times are read and
  compared by chrono (`time`).
- `app/` is the program around it: the terminal, the input task, the HTTP
  requests to GitHub, drawing with ratatui, and the loop that hands input and
  replies to `App::update` and carries out the commands it returns.
- `tests/` runs the library on concrete values.

Configuration is read from `GITHUB_TOKEN` (required), `GITHUB_OWNER` and
`GITHUB_REPO`, also from a `.env` file; `--diff` opens the diff panel at start.
