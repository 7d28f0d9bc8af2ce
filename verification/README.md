# soroban_vault_factory

A multi-signature, timelocked vault with per-asset spending limits, in
Verus. The vault's storage is one value (`contract::VaultFactory`), its
mathematical view is `model::VaultView`, and each operation
(`initialize`, `configure_spending_limit`, `propose`, `approve`,
`execute`, `deploy_vault`) is proved to compute the function of the same
name in `model`. `laws` proves properties of the operations taken
together: consistency is kept, initialization happens once, ids
increment, executed proposals are terminal, execution needs quorum and
timelock, spending stays within its limit, refusals change nothing.

`app/` is the Soroban contract around the library: it requires
authorizations, reads the ledger sequence, loads and persists storage
entries, moves tokens, invokes contracts and deploys child vaults.
