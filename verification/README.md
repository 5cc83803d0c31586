# Lenso Organization

Organization identity, membership and first-class ownership for Lenso, kept in
PostgreSQL. The library is written in Verus: every decision has a contract, and
what the operations promise together is proved.

## Layout

- `src/text.rs`, `src/notation.rs`, `src/names.rs`: texts, numbers written out,
  and the forms that requests must have.
- `src/ids.rs`: generated identifiers.
- `src/schema.rs`: the owned schema, its migrations and its plan.
- `src/contracts.rs`, `src/failure.rs`, `src/transaction.rs`,
  `src/preparation.rs`: requests, answers, errors, and what the packages share.
- `src/postgres_plugin/`: the Plugin. `provider.rs` admits requests,
  `creation.rs` and `membership.rs` hold the transactions, `queries.rs` the
  reads, `statements.rs` the SQL.
- `src/postgres_module/`: the Module, whose owners hold a role with permissions.
- `src/agent_tools.rs`, `src/json.rs`: the Agent Tools.
- `src/secrets_fixture.rs`: a Secrets provider that knows no secret.
- `app/`: the native packages. It runs the SQL and speaks to the Kernel.

The SQL of the migrations and the JSON Schemas of the Tools' arguments are texts
of this crate. The PostgreSQL kit records a checksum of every migration that it
applies and compares it at every start, so a schema is only ever served by the
texts that installed it.

## How a transaction runs

A transaction is a value. `action` says what it asks the database for, and
`advance` takes the reply and either goes on or ends. Whoever runs it performs
the action, hands the reply back, and rolls back if the end comes without a
commit.

## What is proved

`store.rs` models the tables and the effect of each statement, `effects.rs`
gives each operation's effect in closed form, and `laws.rs` and `history.rs`
state what follows: replays answer with the first identifiers whatever happened
in between, a key stands for one intent of one caller, refused operations change
nothing, additions converge on one membership, owners stay, and every active
Organization keeps an active owner. `overlap.rs` lets transactions overlap, fail
and lose their confirmation under the locks that the statements take, and
`isolation.rs` proves that they still end as if they had run one after the
other. A membership check goes by the membership whose transaction started
last. It tells who is a member and who an owner as long as additions end in the
order in which they started, and misses a member who was added by a transaction
that started before an addition and a removal of the same subject. The models
read the SQL and what PostgreSQL says of its locks; they are not tied to a
running database.

Four functions are trusted, each with its contract beside it: the random source
in `ids.rs`, the schema plan in `schema.rs`, and the two JSON functions in
`json.rs`.
