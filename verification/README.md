# craft-nexus-contract

The CraftNexus escrow contract on Soroban, written in Verus: its error
codes, and the state and decisions of the platform.

- `src/error.rs`: the `Error` enum and its code table (`code`, `from_code`),
  the category of each code (`category`), the retry classification
  (`is_retryable`), and the laws of the code table.
- `src/platform.rs`: the platform state (configuration, pause switch, token
  whitelist, minimum amounts and release window, escrows) and the escrow
  calls (`initialize`, the setters, `create_escrow`, `dispute_escrow`,
  `release_funds`, `auto_release`).
- `src/metadata.rs`: IPFS content identifiers and escrows created with one.
- `src/refund.rs`: partial refunds of disputed escrows.
- `src/staking.rs`: sellers' stakes and the stake an escrow requires.
- `src/recurring.rs`: escrows paid out in cycles.
- `src/governance.rs`: the onboarding contract, admin transfer and the
  multi-signer upgrade.
- `app/lib.rs`: the host side: conversions to Soroban's error values, the
  address book, and a deployment that authorises callers, reads the ledger
  time and performs the token transfers and upgrades the library asks for.

A call that moves funds does not move them itself: it returns the token
transfers it calls for, and the host performs them.
