# foxholewarbot

A Discord bot that renders Foxhole's world-conquest maps on demand and on a
schedule, and keeps track of which servers may schedule the whole world map.

- `src/` is the library, verified with Verus: the region table, shard and row
  models, timezones and cadences, what each reply and embed says, HTTP
  revalidation, the steps of a scheduled report and of setting one up, the
  review of full-map applications, the usage tallies and log housekeeping.
- `tests/` runs the library on concrete values.
- `app/` is the bot around it: Discord, Postgres, HTTP, files, the scheduler
  and the pixel work.
