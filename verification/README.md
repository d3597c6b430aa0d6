# rustfs_core

Verified building blocks of an S3-compatible object-storage node, written in
Verus.

- `src/base64.rs`: standard padded base64 through `base64_simd`, with the
  encoded length and the decode-after-encode property in the contracts.
- `src/globals.rs`: the node's settings (name, address, TLS material and
  generation, start time, cached peer connections) as one value, and the
  operations on it, each stated over a field-by-field view.
- `src/serde_datetime.rs` and `src/serde_datetime/option.rs`: expiry
  timestamps written in RFC 3339 and read from RFC 3339 or a legacy layout,
  through the `time` crate.
- `src/capacity.rs`: capacity-scan records.

`app/` holds what the verifier does not see: the process-wide lock around the
settings, the serde adapters over `time::OffsetDateTime`, and the std error
traits of the base64 error.
