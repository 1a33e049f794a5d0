# rgb_channels

The bookkeeping of RGB assets that Lightning channels carry, as a verified library.

- `src/` is the library. Its functions state in their contracts what they give back or change, and
  Verus proves it. Only the function that reads the clock says nothing of what it gives.
- `tests/` runs the library with the crates it is linked to.
- `app/` is the node's side: files, HTTP, the clock of the runtime, and the executors of the process.

The library reads and writes no files. Where it needs one, a function takes what reading the file
gave, and says what is to be written. Where reading, asking and deciding take turns, the decisions
are the steps of a state machine (`accept`, `lookup`), and `app/` performs the actions. The
settlement of a channel is such a machine too (`closing`); it asks the executor through a value that
keeps every call in mind, so that contracts can say what is asked, and in which order.

| module | what it holds |
| --- | --- |
| `text`, `path`, `codec`, `json` | texts, paths, encodings and JSON documents |
| `error`, `types`, `executor` | errors, plain data, and what is asked of the surroundings |
| `contract`, `network`, `transport`, `chain` | contracts, networks and addresses, transports, transactions |
| `state_file` | the wallet's state file |
| `proxy`, `accept`, `lookup` | the proxy, the acceptance of transfers, the lookup of keys |
| `channel`, `payments` | the notes of channels and payments |
| `closing` | the settlement of a channel that closes |
| `coloring`, `transactions` | the coloring of transactions |
| `funding`, `keys`, `wallet` | the funding of channels, new keys, the wallet |

What is not proved stands behind small functions whose bodies call another crate. Their doc comments
say what is claimed of that crate.
