# xrpl_common_stdlib

Typed access to the XRP Ledger's smart-contract host for contract code, verified with Verus.

A contract reads the fields of the transaction that triggered it and of ledger objects, walks
nested fields through paths, computes ledger entry IDs, hashes, checks signatures and traces.
Every one of these goes through the host; this library decides what to ask the host and what to
make of its answer, and proves it.

## Layout

- `src/host/`: the host interface (`HostBindings`), the logging handle `Host`, the host's
  error codes and `Error`, chain information (`chain`) and tracing (`trace`).
- `src/fields/`: decoding of field values (`decoder`), reads of top-level fields of the current
  transaction, the current ledger object and slot-cached ledger objects, and inner-field paths
  (`locator`).
- `src/types/`: the value types fields decode into (accounts, amounts, blobs, hashes, issues,
  token IDs, transaction types).
- `src/sfield.rs`: the serialized fields, each with its code and value type.
- `src/current_tx/`, `src/objects/`: the fields of transactions and of each kind of ledger
  object, as trait methods.
- `src/ledger_entry_ids.rs`, `src/crypto.rs`, `src/constants.rs`.
- `app/`: the `HostBindings` implementation over the host's WebAssembly imports.
- `tests/`: tests run against a scripted host, each call through a fresh `Host` handle.

## What is proved

What the host answers is not known to the library; what it is assumed to do is written down
once, on `HostBindings`, and nothing here checks that the real host (`app/`) does it:

- every method that writes an output buffer keeps its length and changes no byte from the count
  it answers onward, so a read into a zeroed buffer leaves zeros past what the host wrote;
- by default, a query that fills a fixed-size buffer (a hash, a ledger entry ID, the ledger
  index, close time, parent hash and base fee) answers an error or the full length, a signature
  check answers an error, 0 or 1, and a transaction's `SigningPubKey` is 0 or 33 bytes long.

The functions whose result would be undefined on any other answer (where a host breaking its
interface would otherwise go unnoticed) require these promises of the host's relation, as does
reading a fixed-size integer through `current_tx::get_field`; `DefaultHost` meets them and is
verified against its own relations.

Every host call goes through a `Host`, a handle on the bindings that keeps a ghost log of the
calls made through it. The contract of each function that calls the host states how many calls
it makes and of which host function (none for a malformed path, one for a field read or a cache
request, two for loading an entry by its ID), which arguments it hands over (the field code, the
zeroed buffer, the packed path, the bytes), and that its result is what a verified, exactly
specified function (`decode_result`, the decoders, `match_result_code*`, `array_len_from_code`,
the answer readers of `chain` and `crypto`) makes of some answer of the host to that call.

Laws proved in `src/`: result codes and errors convert into each other without loss; serialized
amounts and issues read back as themselves; a locator is the concatenation of the little-endian
bytes of its segments, packing stops at 16 segments, repacking replaces the last one, and a
malformed path stays malformed and is refused with `LocatorMalformed`.
