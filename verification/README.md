# libp2p_node

A gossip peer-to-peer node (gossipsub over TCP and QUIC, peers found by mDNS) offered to
Python. The decisions of the node are a Verus-verified library under `src/`:

- `text`: decimal rendering and the multiaddresses a node listens on;
- `peer`: peer identities held by their multihash bytes, and their Base58 text;
- `string_set`, `topics`: the sets of texts a node reports and the client's topic table;
- `network`: the node's record, its client, and their set-up from a configuration;
- `command`: client commands and what the node does for each;
- `event`: what the node prints and changes on each swarm event;
- `laws`: properties that span these functions;
- `outside`: the calls into `bs58`, `libp2p` and std, with the contracts they are trusted on.

`app/` holds the swarm, the channels, the Tokio runtime and the Python bindings (`pyo3`), and
hands every decision to the library.
