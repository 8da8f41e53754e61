# talium

The backend of the Talium Twitch chat bot, as a verified library and the
program around it.

- `src/` is the library, verified with Verus: chat command cooldowns, the
  command triggers and which of them a chat message sets off, command patterns,
  the stored form of commands, pending OAuth authorisations, panel sessions and
  the checks that admit a panel request, the decisions around Twitch
  credentials, and the rewriting of the panel's `index.html`.
- `tests/` runs the library on concrete values.
- `app/` is the program: the database, the web server, the Twitch API client
  and the chat event loop. It hands plain values to the library and performs
  what the library decides.
