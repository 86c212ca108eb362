# ore_app

A desktop miner for the Ore program on Solana, split in two:

- `src/` is the library, verified with Verus: the miner's state machine,
  transaction tracking (sending, signature checks, result reports), the
  bookkeeping of proof, bus and treasury accounts, the encrypted wallet file
  (sealing and unlocking it through cocoon), the text fields and their
  keystrokes, screen navigation, settings parsing, and the texts the screens
  show. Each public function states its result in `ensures`, except
  `get_unix_timestamp`, whose value is the system clock's; the laws that span
  several calls are public proof functions (`law_*`).
- `app/` is the Bevy front end: it draws the screens, talks to the RPC node,
  reads and writes the settings file and the wallet file, runs the hash search,
  and asks the library what to do at each step.

`tests/` runs the library on concrete values.
