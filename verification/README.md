# avplayer

The verified core of an `AVPlayer` / `AVAssetReader` binding for a Swift
bridge. The bridge reports state and events as integers, names and JSON
payloads, and hands over retained objects by address; this crate holds what
those values mean, proved with Verus.

- `src/` is the library. Every function has a contract: raw values decode to
  the enum variant they name (with the raw name kept for names it does not
  know) and encode back; bridge payloads decode to exactly the event or value
  the contract states, or to nothing / an error on the inputs the contract
  names; arguments are checked before they reach the bridge; retained objects
  are either adopted or released, never both. Laws over several functions
  stand as public proof functions (`lemma_*`).
- `tests/` runs the library on concrete values.
- `app/` is the unverified shell: the C entry points of the bridge, handle
  wrappers, JSON (de)serialization with serde, and the callback plumbing. It
  hands plain values to the library and acts on what comes back.
