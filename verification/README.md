# a_chat_api

The server side of a small chat application: accounts, friends, group chats.

- `src/` is the verified library (Verus). It holds what each endpoint
  computes from the rows MySQL returns (`account`, `search`), and, for the
  endpoints that talk to the database several times, a state machine that
  picks the next statement from each answer (`add_friend`, `add_group`,
  `friend_info`). `models` holds the table rows, `records` the raw rows as
  the driver returns them, `decimal` the decimal text of ids.
- `app/` is the HTTP server (axum, sqlx, diesel): routing, request parsing,
  running the statements the library asks for, and the JSON replies.
- `tests/` runs the library on concrete rows and answers.
