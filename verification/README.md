# sphinx_bot

The decision logic of a Telegram group-verification bot, verified with Verus.

New members of a monitored group are restricted and tagged `suspending`, get a
welcome with a button that opens a private chat with the bot, and must answer a
question there. A correct answer lifts the restriction and clears the tag; a
wrong one bans the member for a week. A watch fires two minutes after a member
joins and bans the member if still suspended. A hub keeps, per user, the groups
in which a verification is pending. A text that is not a command is echoed
back to its chat.

Layout:

- `src/` — the library. Every call the bot makes is decided there as a *plan*
  (`model::Step`: a call and what its failure means), from plain values:
  - `text`, `decimal`, `compose` — strings: words, splitting, trimming, decimal
    notation of integers and how `str::parse` reads it back;
  - `links` — verification links and callback data, written and read back;
  - `commands`, `callbacks`, `members` — text messages, button presses, and new
    members;
  - `auth_hub`, `durable` — the two Durable Objects (pending verifications, and
    the watch over a newcomer);
  - `entry`, `polling`, `client`, `methods`, `questions` — configuration, the
    polling echo loop, the HTTP executor and the question bank.
- `app/` — the program around it: the Worker, the Durable Objects and the polling
  binary perform the Telegram and storage calls that the library plans.
- `tests/` — tests of the library on concrete values.
