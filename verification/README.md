# openprot

Verified core of the services of a platform root of trust: crypto, I2C and flash
servers, the platform lifecycle, and the firmware update supervision between the
orchestrator and the PLDM firmware device.

`src/` is executable Rust whose behaviour is stated in contracts and proved by
Verus. `app/` is the ordinary Rust around it: it makes the kernel calls, drives
the transports, and performs what the library decides. `tests/` runs the library
on concrete values.

## Modules

| Module | What it holds |
| --- | --- |
| `bytes` | little-endian numbers and windows of byte slices |
| `crypto::protocol` | headers, selectors and status bytes of the crypto wire protocol |
| `crypto::backend` | contracts of the crypto engines |
| `crypto::server` | one request to one engine call and one reply |
| `crypto::client` | requests of a remote client, and what replies mean |
| `crypto::traits`, `crypto::stack` | the abstract crypto seam and its facade |
| `crypto::soft` | in-process provider over `sha2`, `hmac` and `aes` |
| `i2c` | backend contract, mock backend and dispatcher |
| `flash` | backend contract and dispatcher |
| `server_loop` | routing of the wake-ups of a server |
| `lifecycle` | states and transitions, wire codec, machine, queue and service |
| `ipc_event_queue` | bounded first-in first-out buffer over `heapless` |
| `orchestrator` | what notifications mean, deadlines, and the run loop's decisions |
| `pldm` | decisions of the firmware device loop and of its notification channel |

Loops that wait for the kernel are split: the library holds a state machine that
is told what happened and says what to do next, and `app/` runs it.

## What is trusted

Every call into another crate stands in a small function of its own whose doc
comment names the callee and says what is claimed of it: the digests, MACs and
block functions in `crypto::soft`, and the deque in `ipc_event_queue`. Backends,
event queues, actions and event sinks are traits for a platform to implement; an
implementation states what its methods do by the spec predicates of the trait.
