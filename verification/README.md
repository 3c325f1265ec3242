# overlord-agent

An indexing agent for the Kad and eD2k networks. It answers searches that a coordinator hands
out, harvests the searches of other nodes and replays them, publishes popular files, and fetches
files over eD2k.

- `src/` is the library. It holds what the agent decides, and its contracts are proved with
  Verus: how requests are read, how results become records and batches, who is asked next, when a
  run is widened or ends, how work is counted and shown.
- `tests/` holds the library's tests.
- `app/` is the agent around it: HTTP in both directions, the files it keeps, and the tasks that
  carry out what the library decides. The Kad node, the eD2k connections, the transfer store and
  the NAT are reached through the traits of `app/network.rs`.

Time comes into the library as an argument. What it takes from other crates (digests, hexadecimal
text, UUIDs, random numbers, URLs) stands behind a few small functions in `digests`, `text`, `ids`,
`random` and `api`, which say what is relied on.
