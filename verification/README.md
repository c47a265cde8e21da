# amms

Discovery and synchronisation of automated market makers (AMMs), written in Rust and verified
with Verus.

- `src/` is the library. It decides what is asked of the chain and what becomes of the replies,
  and every function in it has a contract.
  - `amm` holds the AMMs and their factories: how all pairs of a Uniswap v2 factory are read in
    batches, which token pairs it is asked for, how its creation logs are read, and how long to
    wait before a failed call is made again.
  - `sync` holds checkpoints: how their AMMs are brought up to a block, how new ones are
    discovered, and in which order a checkpoint is read, brought up to date and written.
  - Functions whose names begin with `law_` state what holds of several functions together.
- `app/` performs what the library asks for: it reads the chain, the clock and the disk. Reads
  that belong to the pools themselves are made by a `PoolReader`, which its users implement.
- `tests/` runs the library on concrete values.
