# consensus_overlord

The consensus service of a chain node, on the overlord BFT engine. The service
registers at the network service, waits for a configuration of the controller,
runs the engine, and answers three requests: to take over a configuration, to
check a block with its proof, and to take a message of the network.

`src/` is the library, in Verus. It is synchronous: a function takes the replies
of other services as plain values, and returns what to send next.

| module | what it holds |
| --- | --- |
| `consensus` | the state of the service: configurations, block checks, messages |
| `brain` | what the engine asks for: blocks, commits, the authority list, delivery |
| `server` | the answers to requests |
| `crypto`, `bls` | signatures of votes, and their aggregation |
| `voters` | who took part in an aggregated signature |
| `codec`, `message` | the wire form of the engine's messages |
| `wal`, `config`, `endpoint`, `status` | the log's numbers, settings, addresses, status codes |
| `laws` | what holds across the functions |

`app/` is the program around it: gRPC servers and clients, the engine, the log on
disk, the configuration file.

    consensus run -c config.toml -p private_key

The private key is a file with the key in hexadecimal. The section
`[consensus_overlord]` of the configuration file may set `consensus_port`,
`network_port`, `controller_port`, `server_retry_interval`, `wal_path`,
`enable_metrics`, `metrics_port`, `metrics_buckets`, `domain` and `log_config`.
