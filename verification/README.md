# cloud_hypervisor

Building blocks of a virtual machine monitor, verified with Verus: the block device and its
mirroring, the control queue of the network device, CPU profiles, advisory file locks,
interrupt allocation, boot order hints, and the protocol, memory tables, progress and streams of
live migration.

- `src/` is the library. Work that alternates with the outside (disks, threads, connections,
  files) is written as phases: a phase says what it needs done, and a function takes the answer
  and returns the next phase. What holds across several steps is stated by the functions named
  `law_*`.
- `tests/` runs the library on concrete values.
- `app/` performs what the phases ask for: system calls, threads, sockets and serialized forms.

Virtqueues come from `virtio-queue` and guest memory from `vm-memory`. The functions that call
them are marked as trusted and say what is claimed of the call; nothing is claimed of what
guest memory holds, since a guest may write to it at any time.
