# mail2

Fetches mail, has a language model sort it, keeps what is to be done and by when, and sends
reminders. `src/` is the library, in Rust with contracts that Verus proves; `app/` is the program
around it: files, databases, servers, the web.

## The library

| Module | What it is about |
| --- | --- |
| `text`, `number`, `encoding`, `pattern` | text as characters, numbers in text, Base64 and UTF-8, regular expressions |
| `json`, `json_text`, `records` | JSON values, reading and writing them, and records as JSON |
| `time`, `clock`, `deadline` | moments and time zones, clocks, deadlines in the words of a mail |
| `config`, `model` | settings, and what is stored: mail, items, reminders, accounts, requests |
| `db` | queries, filters and the order of lists |
| `mail` | reading messages, and how servers are asked for them and given them |
| `llm`, `agent` | what the model is asked, what its answers say, and the tools that it can call |
| `pipeline` | what becomes of a mail: its category, its item, and what it is merged with |
| `notifier`, `checker`, `scheduler` | reminders: when, in what words, which go out now, and when that is checked |
| `api` | requests to the web interface and the answers to them |

Functions that call other crates are not public and are marked `#[verifier::external_body]`; the comment
above each names the function that it calls and says what is taken on trust.

What holds of the library as a whole is stated in public proof functions. Among them:

- items that are completed, silent or past their deadline are never reminded of
  (`checker::only_active_items_are_reminded_of`, `checker::no_reminder_after_deadline`);
- a reminder that went out is not sent again, and one that failed waits half an hour
  (`checker::what_went_out_is_done`, `checker::what_failed_waits_half_an_hour`);
- promotions never make an item (`pipeline::promotions_are_never_to_do`); nor do answers to
  something done, where the subject tells no time and notifications are kept as such
  (`pipeline::answers_are_not_to_do`);
- what the agent would change waits for a user (`agent::calls::changes_wait_for_approval`), and one
  mail makes one item (`agent::calls::one_mail_makes_one_item`);
- passwords and keys do not leave through the web interface (`api::secrets_are_not_shown`).

## The program

`mail2 serve` polls the accounts, runs the scheduler and serves the web interface; `mail2 fetch-once`
and `mail2 check-once` do one round each; `mail2 init` writes examples of the settings.
A tool for the model beside those of the library is written and listed in `app/tools.rs`.
