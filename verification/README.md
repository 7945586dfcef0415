# etl_updater

Updates ETLegacy game servers on request from a Discord bot.

- `src/` is the verified library (Verus):
  - `text`: decimal rendering of ports;
  - `client::configuration`: the bot's configuration and the URL of each server;
  - `client::authorization`: the token placed in a request's gRPC metadata;
  - `client::commands`: the requests and replies of the bot's `update` command;
  - `server::configuration`: the service's configuration and listening address;
  - `server::authorization`: the middleware layer and the decision whether a
    request's token admits it;
  - `server::updater`: the steps of an update run and the answer they give.
- `app/` holds the two programs (`client` and `server`): file reading, command
  line, Discord session, gRPC transport, process spawning.
- `tests/` runs the library on concrete values.
