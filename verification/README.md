# starboard_bot

A Discord bot for one community: a starboard (messages that collect enough star
reactions are quoted in a starboard channel, and the quote follows the count), self-assignable
roles offered as buttons, a command that picks the starboard channel, and a command that makes a
player admin on an Unturned game server.

- `src/` is the library, verified with Verus: every decision the bot takes and every text it
  writes. `src/starboard/run.rs` is the handling of a reaction as a step function from state and
  event to next state and action; `src/starboard/laws.rs` proves what every handling keeps to.
  Serenity is called through a few trusted wrappers in `src/discord.rs`.
- `app/` is the program around it: configuration, the Discord gateway (poise/serenity), the
  PostgreSQL database (sqlx) and the game server's console; it carries out the actions the
  library asks for.
- `tests/` runs the library on concrete values.
