# VeloxLedger

A double-entry ledger behind a gRPC interface, on a PostgreSQL database.

- `src/` is the library, written in Verus: the rules of the ledger, with contracts that say what
  each function returns and proofs that it does. It does no input or output.
- `app/` is the service around it: the gRPC server, the database statements, the webhook worker
  and the configuration.
- `tests/` runs the library from outside.

## The library

| module | what it holds |
| --- | --- |
| `domain` | accounts, entries, sets of entries that balance, transactions, events |
| `service` | what each request is answered, and the steps of posting a transaction |
| `repository` | the rows of each statement, what its answer means, and paging |
| `webhook`, `queue` | the queue of events, and when a delivery is tried again or given up |
| `error` | what can go wrong, how it reads, and what a client is answered |
| `proto` | the messages, and the numbers of enumerated values |
| `decimal`, `ids`, `clock`, `json`, `text` | values, each with the outside functions it rests on |

Amounts are decimals of 96 bits with up to 28 places. Contracts state a sum exactly
wherever some decimal is worth it; elsewhere they name what the `rust_decimal` crate rounds it to. An amount out
of range is an `Overflow`.

Among the laws that are proved: posting entries that balance leaves the accounting equation as it
was (`law_posting_keeps_the_books_balanced`), the history of a balance has no gaps
(`law_history_is_a_chain` and its neighbours), accounts are locked in one order
(`law_locks_never_cross`), and going through a list page by page hands out every row once
(`law_pages_hand_out_every_row_once`).
