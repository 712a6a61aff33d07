# view_facade

A registry of contract addresses kept by an administrator, so that dashboards,
indexers and wallets can discover the contracts they query through one place.

- `src/address.rs`: an account or contract identity, held as its strkey bytes.
- `src/registry.rs`: contract kinds, registered entries, the storage keys, and
  the mathematical lookup and removal on a registry with their lemmas.
- `src/facade.rs`: the facade's state machine (`init`, `register`,
  `deregister`, `list_contracts`, `contract_count`, `get_contract`), each
  operation specified by a step function on the facade's view.
- `src/laws.rs`: properties that span operations, proved over those step
  functions.
- `app/lib.rs`: the on-chain contract, which loads the state from instance
  storage, calls the library, obtains the administrator's authorization where
  the library names the administrator, and stores the result.
