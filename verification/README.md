# shopfront

The verified core of a small shop backend: an HTTP API (carts, products,
posts, categories, checkout), an order service reached over gRPC, and a
notification service that e-mails users.

`src/` is the library, verified with Verus:

- `money`, `totals` — decimal amounts as `rust_decimal` computes them, and
  running totals of price × quantity (exact whenever nothing overflows).
- `cart` — cart pricing and the quantity and stock rules.
- `sort`, `order_service`, `order_model` — checking an order request, locking
  its products in ascending id order, pricing it, writing it on the wire.
- `order_status` — the fulfillment stages and the status-watch state machine.
- `api_orders` — reading wire orders back, and the API's order checks; the
  wire round trip is stated as `lemma_wire_round_trip`.
- `auth`, `error`, `pagination`, `config`, `notification`, `ids`, `instant`,
  `text`, `rpc` — access rules, error answers, paging, settings, e-mail texts,
  identifiers, times and integers as text, call outcomes.

`app/` runs the services: the database queries, the gRPC and HTTP plumbing,
timers and e-mail delivery.  `tests/` exercises the library on examples.

What `app/` does not do: it has no token or password utilities, so sign-up,
login and the token guard are missing, and handlers that read the caller's
id from the request find none; checkout sends no order-confirmation e-mail,
since the notification service has no call for one.
