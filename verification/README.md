# balto_bot

The decisions of the Balto.AI Telegram bot, verified with Verus: which handler
an update reaches in a chat's dialogue, what each handler stores and sends, and
how the reports generated by the backend wait for the employee's confirmation
before they are forwarded to the employer.

- `src/` is the verified library. Handlers return a `Plan`: the actions to
  perform in order (send, edit, store the dialogue state, queue a request) and
  the fault, if any, that ends the handling.
  - `text`: decimal numbers, ASCII case folding, searching in texts.
  - `command`: the `/command[@bot] args` syntax and the help text.
  - `dialogue`: dialogue states, media, texts, actions and plans.
  - `route`: where a message or a button press goes, given the state.
  - `handlers`: the plans of the handlers.
  - `report`: the reports waiting for confirmation and their delivery.
  - `codec`: report ids (`uuid`) and base64 (`base64`).
  - `rabbit`: the RabbitMQ connection states and client errors.
  - `laws`: properties across handlers, proved.
- `app/` runs the bot: Telegram (teloxide), the database (sea-orm), RabbitMQ
  (lapin), localized messages (fluent); it performs the plans.
- `tests/` exercises the library on concrete values.
