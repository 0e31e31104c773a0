# fwknox

Single packet authorization: a client proves that it knows a shared key with one
encrypted and authenticated UDP packet, and the daemon opens a firewall port for a
short time.

The library under `src/` is verified with Verus. What it computes and decides is
stated in the contracts of its functions, and what holds across functions in its
public proof functions, whose names begin with `law_`.

| Module     | What it holds                                                        |
|------------|----------------------------------------------------------------------|
| `proto`    | the packet: header, keys, tags, encryption, payload, age             |
| `config`   | the configurations of daemon and client, and the rules they keep     |
| `firewall` | rules, the interface of a firewall, nftables, a firewall in memory   |
| `capture`  | the interface of a source of packets, and datagrams                  |
| `privsep`  | the messages between the processes, and the decisions of the workers |
| `daemon`   | matching, policy, the pipeline, the parent, the main loop            |
| `client`   | what the command line asks for, and the packet that asks for it      |
| `net`, `text`, `time` | addresses, texts and durations as plain values            |

Cryptography, MessagePack, base64, address syntax and nftables commands come from
other crates. Each call stands in a small function of its own with a contract that
is believed, not proved; its doc comment names the call and says what is claimed.

`app/` holds the programs `fwknox`, `fwknoxd` and `fwknoxd-mock`: command lines,
files, sockets, processes and signals. It calls the replay cache, the rate limiter
and the sandbox, which are separate crates.
