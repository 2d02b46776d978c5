# xshare

The logic of an on-chain advertising marketplace on Solana, verified with
Verus: space creators list ad spots and campaigns, ad creators bid on them,
views and clicks are counted on an ephemeral rollup with bloom filters, and
earnings are settled back on the base layer. Every listing and bid is a
compressed NFT.

## Layout

- `src/` — the verified library. Account layouts (`layout`, `codec`,
  `bytes`), hashes (`hashes`), the printable encodings of NFT symbols and
  URI payloads (`ascii`), bloom filters (`bloom`), derived addresses
  (`pda`), participants and listings (`ads`), bids (`bids`, `bid_open`,
  `bid_close`, `bid_grow`), NFT metadata (`metadata`), the instructions sent
  to Bubblegum and Token Metadata (`cnft`), the marketplace roots (`base`),
  and the calls into outside crates with the contracts they are trusted for
  (`external`).
- `tests/` — tests of the library on concrete values.
- `app/` — the Anchor program around the library: instruction dispatch,
  account constraints, reading accounts into the library's model and
  writing them back, and the calls into the runtime, Bubblegum, Token
  Metadata and the rollup's delegation program. The size of the bloom
  filters is computed there, in floating point.

Each function that can fail on inputs the program does not handle has an
executable `*_fits` twin (or a `*_checked` variant) that tells those inputs
apart; `app/` consults it before the call.
