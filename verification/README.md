# calendar_notifier

A Lambda function that signs in to Azure AD with the OAuth device-code flow,
reads the day's events from an Outlook calendar through Microsoft Graph, and
sends a summary of them as a Pushbullet note. It also answers an HTTP request
that runs its jobs.

- `src/` is the verified library: the sign-in state machine
  (`integrate::ad`), the requests to Graph and Pushbullet and the reading of
  their replies (`integrate::outlook`, `notify`), the application state and its
  stores (`app`), the summary (its time span, the stable sort by start, the
  text) and the HTTP routing (`handle`), the Lambda types (`lamb`), instants
  in UTC (`time`) and small combinators (`utils`, `prelude`).
- `app/` is the program around it: the Lambda entry point, the HTTP exchanges,
  the environment, the state file, the process-wide stores, and the serde forms
  of the library's types.
- `tests/` runs the library on concrete values, comparing with `chrono` and
  `reqwest` where the library states their behaviour.
