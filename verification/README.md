# rusthunter

An HH.ru automation backend for n8n workflows. It drives Chrome through
ChromeDriver with a persistent browser profile: `GET /search` reads vacancy
listings (and optionally their descriptions), `POST /apply` opens a vacancy,
presses its respond control, fills the cover letter and leaves the form open
for the user to review and submit, and `login` opens the login page so the
profile can be signed in by hand.

## Layout

- `src/` is the library, written and proved with Verus:
  - `text.rs`, `url.rs`: whitespace trimming and collapsing, substring
    tests, percent-encoding and decimal formatting, with their laws.
  - `config.rs`, `errors.rs`, `models.rs`: the configuration defaults, the
    errors with their HTTP status codes and messages, and the request and
    response bodies.
  - `routes/`: request validation and the answers of `/search` and `/apply`.
  - `services/`: the browser logic as state machines. Each machine takes the
    result of the last browser action as an event and returns its next state
    and the next action (`actions.rs`): the locator scan, CAPTCHA detection,
    page waits, result-card reading, the close watch, and the search, apply
    and login flows built from them. `selectors.rs` holds the locator groups; `targets.rs` the page
    addresses, cover letter and resume a flow's actions refer to;
    `browser.rs` and `job_search.rs` the URL, text and error decisions.
- `app/` is the program around it: configuration from the environment, the
  axum server, serde bodies, and the runner that performs each action with
  thirtyfour and reports the result back to the machine.
- `tests/` runs the library on concrete values.
