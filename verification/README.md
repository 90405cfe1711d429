# xcomm

A peer-to-peer chat node on libp2p (gossipsub, Kademlia, relay, AutoNAT, UPnP,
DCUtR) with a verified core.

- `src/` is the library, verified with Verus:
  - `decimal`: decimal formatting of `u64`, with its round-trip law;
  - `message_id`: content-addressed gossip message ids;
  - `identity`, `seed_key`: node keypairs tied to their source, and loading a seed
    node's key from hex-encoded protobuf, or generating one;
  - `gossip`, `gossip_config`: the gossip settings and the config built from them;
  - `address`, `dial`: parsed addresses tied to their text; what is dialled and listened on;
  - `events`: what the chat and seed loops do with each event.
- `app/` runs the nodes (`xcomm seed` for a seed node, otherwise a chat node):
  swarm construction, terminal and network I/O.
- `tests/` exercises the library.
