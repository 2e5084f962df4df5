# presale

A token presale with vesting, as a CosmWasm contract whose rules are
verified with Verus.

Buyers pay for tokens in the sale's coin between the start and the end of the
sale. After the end each buyer withdraws the bought tokens in vesting steps;
the admin wallet takes the tokens left unsold, and the owner has the token
contract mint the supply once.

## Layout

- `src/` is the verified library.
  - `state.rs`, `msg.rs`, `error.rs`: the stored data, the requests and
    answers, and the errors.
  - `sale.rs`: each request's rules, from the values it reads to the values
    it writes back and the messages it sends out.
  - `ledger.rs`: the buyers' ledger as a sequence with one entry per address.
  - `contract.rs`: a sale together with its stored data, the request
    dispatch and the queries, with the invariant that every request keeps.
  - `laws.rs`: what holds across requests.
  - `token.rs`: the encoding of calls on the token contract, done by the
    `cw20` and `cosmwasm-std` crates and trusted.
- `app/` holds the contract's entry points: storage through
  `cw-storage-plus`, address validation by the host, and the JSON forms of
  the messages.
- `tests/` runs the library on concrete requests.
