# nozomi-quic-client

Ultra-low-latency QUIC/H3 client for submitting Solana transactions to Nozomi, with a core
that is verified with Verus.

- `src/` is the core: endpoints, configuration, the batch wire format, requests, and the state
  machine that decides what the network is to do next. `src/laws/` holds what is proved of it
  as a whole.
- `app/` is the network: it sets up QUIC and H3 and runs the steps that the core asks for.
- `tests/` runs the core on concrete values.

## Wire format

Batches are posted to `/api/sendBatch`. Each transaction is length-prefixed with a big-endian
`u16`:

```
[len_hi][len_lo][tx_bytes...][len_hi][len_lo][tx_bytes...]...
```

Max 16 transactions per batch, each up to 1,232 bytes.

The API key is passed as `?c=<key>`: as it is, or, where it holds a `#`, percent-escaped from
there on.

## Operations

`warmup` and `send_raw` give the first `Step` of an operation. A step is a DNS lookup, an
attempt to connect, a transmission, or the end. Its outcome goes back to the client, which
gives the next step. A send that fails reconnects and retries once; the address of the host is
cached across reconnects.
