# complyrail-contracts

FATF Travel Rule compliance for Stellar anchors: a registry of VASPs,
per-asset and per-jurisdiction compliance thresholds, and a payment escrow
that holds payments at or above the threshold until the beneficiary VASP
submits an attestation (the hash of an off-chain IVMS101 message).

Layout:

- `src/` — the verified library.
  - `types.rs`: addresses (always shaped as account or contract strkeys),
    VASP entries, payment records, approvals, refusals and events, with
    their mathematical views.
  - `bytes.rs`, `bytemap.rs`: byte-string helpers and a byte-keyed map, the
    shape of the contract's instance storage.
  - `rules.rs`: the contract's decisions piece by piece (admin checks, the
    ISO 3166-1 jurisdiction table, threshold keys, payment ids, approvals,
    attestation).
  - `steps.rs`: one verified step per entry point, from the values the
    call reads out of storage to the values it writes back and the event it
    publishes, or its refusal.
  - `contract.rs`: `ComplyRailContract` over `Env` (ledger time, instance
    storage, published events), each call specified by a transition of
    `EnvView` that applies its step's outcome.
  - `laws.rs`: what holds across calls.
- `app/` — the Soroban contract itself: authorization, storage, events and
  conversions between `soroban_sdk` values and the library's types. Each
  entry point reads the values its step takes, calls the verified step,
  writes back what it returns and publishes its event.
- `tests/` — tests of the library.

The first admin is set by `initialize` on a contract that has none; further
admins are added by an admin through `set_admin`. Releasing or rejecting an
escrowed payment by the admins takes the approvals of two distinct admins.
Jurisdictions must be ISO 3166-1 alpha-2 codes assigned to a country or
territory.

What Verus checks is the library. The deployed contract in `app/` runs the
same verified steps as the model `ComplyRailContract` over `Env`; what stays
unverified there is reading each step's arguments out of Soroban storage
under the keys its outcome names, writing back what it returns, and the
conversions between `soroban_sdk` values and the library's types. The
thresholds live in Soroban storage as a `soroban_sdk::Map` keyed by the
verified `format_threshold_key`; in the library they are a `ByteMap`.
