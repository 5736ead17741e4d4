# gx_datalinker

The verified core of a set of services that copy records of a business API (stock
balances, products, invoices, purchase orders) into a PostgreSQL database and answer
report questions through a language model, plus the account service of their web site.

- `src/` is the library, verified with Verus: the JSON lookups that map API records
  onto database rows, the bounded chat history and request bodies, the report texts
  (stock, invoice, purchase order, and the ABC profit classification of a product),
  the minute log of the synchronisation routine, the session tokens (signed and read
  with `jsonwebtoken`), login and avatar rules of the web site, and the dates that
  `chrono` parses, shifts and writes. Amounts are held in millionths of a unit and
  written with two decimals.
- `tests/` runs the library on concrete values.
- `app/` holds the services themselves: HTTP servers, database access, API and model
  requests, timers and environment; each service is started by name
  (`estoque`, `gestor-produtos`, `notas-fiscais`, `notas-fiscais-v1`, `ordens-compra`,
  `web`).
