# nodegaze

The backend of NodeGaze, a Lightning node observability service, split in two:

- `src/` is the verified library (Verus): data models and their text forms,
  validation rules, configuration, token claims, channel and payment
  filtering, the standardized form of node events, invitation e-mails, and
  the decisions of the account, invite, notification, event, user and
  authentication services. Registering an account, creating and accepting
  an invitation, logging in and refreshing a token are written as step
  functions: the caller performs the lookup (or the signing) the library asks
  for and calls again with the answer; the shorter service operations are
  sequences of verified functions.
- `app/` is the server around it: environment, SQLite storage, HTTP routes and
  middleware, token signing, SMTP, webhook tests and BTC price lookups.
- `tests/` exercises the library on concrete values.
