# kukuri

The verified core of the kukuri peer-to-peer client, written in Verus.

- `src/` is the library.  Its functions are verified against their contracts,
  except the small trusted wrappers around outside calls (hashing, hex,
  Schnorr signatures, JSON encoding of the canonical payload, the clock),
  whose contracts are believed and documented where they stand:
  - `crypto` — SHA-256, hex and BIP-340 Schnorr signatures (through the
    `secp256k1` and `hex` crates) and the author's keys;
  - `json` — the compact JSON text of integers, strings and arrays that the
    canonical payload is written in, and the facts that make it readable
    back (each piece ends where its delimiter stands);
  - `envelope` — signed envelopes (canonical payload, signing, verification,
    and the proof that an envelope with an altered signed field is refused
    unless SHA-256 collides) and the gossip hint types;
  - `hints` — which topic a hint targets, what a hint or a document event
    hydrates (and how a failing step ends a hint's hydration), and which
    available blobs are announced, and where;
  - `recovery` — the restart backoff and the recovery decisions of a topic
    subscription (document events, hints, periodic docs probes);
  - `sync_state` — restart cooldowns, subscription generations, public-topic
    delivery status and subscription keys;
  - `teardown` — what shutting down, leaving a private channel and
    restarting its subscription stop and unsubscribe;
  - `timeline` — cursor pagination of profile timelines;
  - `channels` — private-channel labels, rotation and epoch-handoff checks,
    the rotation-grant redemption loop, and repost eligibility;
  - `guide`, `text`, `ids` — small helpers and identifier types.
- `tests/` exercises the library on concrete values.
- `app/` holds the unverified rest: serde forms of the types, JSON content,
  the clock, the file system and async drivers that run the library's
  decisions: the subscription loop, blob announcements, the rotation-grant
  redemption loop, teardown and replica-sync restarts.
