# confession_bot

A Discord bot for anonymous confessions. A user confesses to a channel; the
confession goes to the guild's vetting channel with Approve and Deny buttons;
on approval it is posted to the channel it was meant for, under an anonymous
label derived from the user id and a per-guild secret.

- `src/` is the verified library (Verus): number formatting and parsing
  (`text`), the anonymous id (`hash`), button custom ids (`button`), all
  message texts (`messages`), the decisions of each command as state machines
  (`vetting`, `confess`, `review`, `setup`) and the guild settings outcomes
  (`guild`).
- `app/` is the bot itself: Discord and database I/O driving those state
  machines.
- `tests/` runs the library on concrete values.
