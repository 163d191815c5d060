# vault_hook

The verified core of a Token-2022 vault program with a whitelist transfer hook.

- `src/` (Verus): user balances credited by deposits that the same transaction
  backs with a `TransferChecked` into the vault and a memo
  `deposit:<signer>:<amount>:<nonce>`, the memo paired with a transfer before it
  that no other memo of the same signer and amount claims first, and nonces
  increasing per user (a record holds one nonce, so a fixed-size account can
  refuse every replay), so each nonce is credited once and each transfer backs
  one credit; debited by withdrawals, which keep the nonce record; the
  admin-only whitelist switches; the transfer hook's verdict; the extra-account
  list of the hook.
  Instructions of the transaction are read from the instructions-sysvar data.
- `app/`: the Anchor program around it: account validation, (de)serialization,
  logging, and the panics with which the hook turns transfers down.
- `tests/`: tests of the library on concrete transactions and accounts.
