# isracard_payment

A Telegram bot that creates Isracard 360 payment links, as a Verus-verified
library and a thin executable around it.

- `src/` is the library, verified by Verus:
  - `text.rs`: character-level helpers with exact contracts (trimming by
    Unicode white space, English-only text check, HTML escaping, decimal
    formatting and integer parsing as std does them).
  - `models.rs`: currencies and the bodies of the Isracard API requests.
  - `bot.rs`: the dialogue (name, currency, price, confirmation) as functions
    from the dialogue state and the user's input to the actions the bot takes,
    the keyboards and message texts, routing, and the dialogue's laws.
  - `isracard.rs`: the API session (credentials and cached token) and the
    step-by-step exchange that creates a payment link, including the renewal of
    an expired token.
  - `config.rs`: the bot's settings from the text of its environment variables.
  - `webhook.rs`: reading a Telegram update from a webhook request's body.
- `app/` runs it: the Telegram dispatcher, the HTTP requests to Isracard, the
  JSON forms of the API bodies, the AWS Lambda webhook handler and the webhook
  registration utility. Its first argument chooses `polling`, `lambda` or
  `setup_webhook <URL>`.
- `tests/` exercises the library on concrete values.
