# solana_token_cli

The client side of a token program's command line, verified with Verus.

`src/` computes every transaction the commands send and everything they
report, with contracts stated over byte sequences:

- `address` — 32-byte addresses, base58 text, the token program's and the
  system program's addresses, and the program-derived address of an owner's
  token account for a mint (seeds `token`, owner, mint).
- `instruction` — accounts and data of the program's instructions
  (`initialize`, `create_token_account`, `mint_tokens`, `transfer`, `burn`):
  an eight-byte tag followed by the little-endian arguments.
- `commands` — `init` (and `init_new_mint` for a freshly made mint keypair),
  `create_account`, `mint_tokens`, `transfer`, `burn`, `balance`: from the
  command's arguments to the instruction and the accounts it names, or the
  error.
- `keypair` — keypair files (a JSON array of the 64 secret-and-public bytes),
  `~` in their paths, and the name under which a fresh mint keypair is kept.
- `mint_record` — on-chain records: the mint's (tag, authority, total
  supply, decimals) and the amount of a token account (tag, two addresses,
  amount).
- `laws` — properties that span commands, such as that minted tokens land in
  the account `create_account` made.

`app/` reads keypair files, sends the planned instructions through an Anchor
client and prints the results.
