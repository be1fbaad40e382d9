# matrix-journal

A program that watches inbound Matrix events (messages, reactions, stickers and redactions) and
writes a journal of them, one entry per event, as plain text or as JSON. It sends nothing but
read receipts, and those only on request.

## Layout

`src/` is the library, verified with Verus:

- `event`: the events that are followed, and what is read from them
- `message`: the entries of the journal, their order and their two written forms
- `json`: objects of text in JSON, and the comma that may follow the last entry of a file
- `clock`: points in time as text
- `queue`: a queue that hands messages out by their time
- `journal`: when to sync, when to save, and when each message is written
- `settings`: what is kept between runs, and how it is saved
- `login`: the steps of a login
- `ids`: identifiers given by the user
- `device`: verifying another device
- `text`: text helpers

Proof functions named `law_...` state what holds of the library as a whole.

`app/` is the program around it: arguments, the homeserver, the disk and the output.

## Use

Create `~/.local/share/matrix-journal/session.json`:

    {
      "user": "@me:matrix.org",
      "password": "something",
      "homeserver": "https://matrix.org",
      "db_key": "long-random-string",
      "session": null,
      "sync_token": null,
    }

The comma after the last entry may stay or go. Then run `matrix-journal`. Once it has logged in and filled in the session, the password can be
set to `null`. Requests to verify another device are accepted and confirmed blindly.

- `-r` watches one room only.
- `-x` sends read receipts for all received events.
- `-o` writes to a file.
- `-j` writes JSON.
