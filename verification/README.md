# discorsd_games

A Discord bot's games (Avalon, Coup, Hangman) and the parts of its Discord client that make
decisions, written in Verus and proved against their contracts.

- `src/` is the verified library:
  - `ids`, `model`, `emoji`, `channel`, `guild`, `message`, `interaction`: Discord's objects,
    and reading the few of them that arrive as raw text;
  - `cache` and `dispatch`: what each gateway event does to the cache;
  - `shard`: the gateway connection's decisions (identify or resume, heartbeats, giving up);
  - `routes`, `rate_limit`: the REST endpoints, their buckets, and how long to wait;
  - `command_json`: the JSON with which slash commands are registered;
  - `outgoing`: the messages the bot sends, with at most ten embeds each;
  - `commands`, `games`, `errors`, `interaction_use`, `utils`, `markup`, `text`: the bot's
    general commands and the texts it sends;
  - `avalon`, `coup`, `hangman`: the games' rules, states and messages.
- `tests/` runs the library on concrete values.
- `app/` is the program that draws the pictures of the Avalon board, and the one command that
  reads the machine's load.
