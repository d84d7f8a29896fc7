# rayquabot

The decision logic of a Discord bot that runs shiny-hunting competitions
("editions"), verified with Verus.

- `src/` is the verified library: dates and their checks (`dates`), edition
  creation (`edition`) and editing (`editing`), the version catalogue and its
  displays (`versions`), the settings carried in component ids (`selection`),
  the routing of interactions (`routing`), slash command definitions
  (`commands`), server setup (`setup_env`, `setup_plan`, `first_setup`) and
  player registration (`registration`). Calls into `chrono` go through three
  trusted wrappers in `dates`; `text` has one more, around `String::push`.
- `app/` is the bot itself: it talks to Discord (serenity) and MongoDB and hands
  every decision to the library.
- `tests/` runs the library on concrete values.
