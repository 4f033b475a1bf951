# attestation_portal

A public portal that shows, for a fleet of Intel TDX hosts, that each confidential virtual machine
(CVM) is genuine and runs approved code. The logic is a Verus library: its functions carry contracts
that Verus proves, resting on what the trusted functions around other crates are believed to do.

- `src/` — the library. `collect` decides what a node agent looks up and turns the answers into a
  report; `cert`, `dcap`, `onchain` and `verify` take a report to a verdict, step by step; `compose`,
  `page`, `html` and `template` make the pages; `store` keeps the latest report of each node and
  decides which pushes are accepted. Calls into other crates stand behind small trusted functions
  whose contracts say what is relied on.
- `app/` — the two programs around it, `agent` and `server`: sockets, files, `/proc`, and the JSON
  forms of the library's types.
- `tests/` — tests of the library, among them one that takes a real TDX quote through the whole
  verification.

## What is proved

- A verdict fails closed: a signature counts as valid only where a quote was taken from the
  certificate, its collateral was fetched and the two were accepted; anything else leaves an
  all-negative verdict that says why.
- Measurements count as approved only on an explicit answer of the contract for the role and network.
- A push is stored only with the configured token; without one, nothing is accepted.
- Text from outside cannot add a tag or an attribute to a page.
- The chip on the index and the card on the detail page never disagree.
