# memebot

A Telegram bot that takes memes from users, shows them to a moderator with
approve / decline buttons, and queues approved photos for posting.

The decision logic is a verified library (`src/`, checked with Verus):

- `bot::command`, `bot::callback`, `bot::dialogue`: each handler is a state
  machine that takes the outcome of the last piece of work (`BotEvent`) and
  returns the next piece of work (`BotAction`); its contract fixes both.
- `bot::types`: file kinds, button payloads, and the preparation of an
  uploaded photo (conversion from HEIC, size checks, clean-up) as step
  functions over `FileWork` / `FileEvent`.
- `bot::markups`, `types`, `db`: keyboards, user mentions and database rows.

`app/` is the process around it: Telegram plumbing (teloxide, dptree), the
dialogue store, files and images, settings and logging. It performs each
action the library asks for and hands back what came of it.

Laws of the library are stated as public proof functions next to the code
they speak of.
