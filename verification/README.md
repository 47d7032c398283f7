# zero2prod

A newsletter subscription service. The library under `src/` holds its logic, verified
with Verus:

- `configuration`: the settings, the environment (`local` / `production`) chosen by
  `APP_ENVIRONMENT`, the configuration file of each environment, the server's listen
  address and the Postgres connection options;
- `secret`: secret strings (passwords, certificate paths) kept in `secrecy::Secret`;
- `routes::subscriptions`: the rules for a subscriber's name and the steps that
  handle one subscription request.

`app/` is the server around it: reading the configuration files, the connection
pool, the HTTP routes and the database insert.
