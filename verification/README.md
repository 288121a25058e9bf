# bili_hardcore

A desktop assistant for bilibili's hardcore-member quiz: it logs in by QR
code, checks the account level, handles the category captcha, asks a
language model for each of the hundred questions and submits the answers.

- `src/` is the verified library. The quiz state (`App`) changes only
  through functions whose contracts say exactly what they do; the work that
  needs the outside world is handed back as `Effect` values, and its outcome
  comes back as `AppEvent`s. The library also holds the prompt and request
  body for the model, the decoding of its streamed reply, the reading of the
  site's replies, the session history, and what the window shows.
  `laws.rs` states the properties that span several calls.
- `app/` is the program around it: the egui window, the files under
  `~/.bili-hardcore`, the HTTP requests to bilibili and to the model, and
  the serde forms of the stored types.
- `tests/` runs the library on concrete values.
