# icoding_client

The core of the iCoding desktop agent: the client that signs a user in,
registers the machine with the iCoding cloud, keeps a WebSocket session open
and serves the cloud's tasks on the local machine under a local policy.

`src/` is the library, verified with Verus: the local path and command
policy, the configuration and its migrations, error chains and the codes they
are reported under, the protocol's messages, the decisions of each capability
(file system, commands, system information), the WebSocket session's
decisions (addresses, replies, reconnection), and the Full Disk Access check.
`src/outside.rs` holds the calls into outside crates with the contracts the
library relies on.

`app/` is the command-line program around it: argument parsing, files,
processes, HTTP and the WebSocket connection itself.

`tests/` runs the library on concrete values.
