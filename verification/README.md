# vpci_dev

Virtual virtio devices on a PCI bus, as a hypervisor shows them to its guests,
with their behaviour stated and proved in Verus.

- `src/capability.rs`, `src/msix_cap.rs`: what the guest reads and writes in the
  capability list.
- `src/common_cfg.rs`, `src/isr.rs`, `src/notify.rs`, `src/msix_table.rs`: the
  structures in the BARs. Each implements `AreaInBar` (`src/area.rs`): what an
  access does is a spec function, and the code is proved to compute it.
- `src/virtqueue.rs`, `src/bridge.rs`: a queue, and what the backend in the root
  zone is told.
- `src/bar.rs`, `src/config_space.rs`, `src/bus.rs`: the way of an access from
  the bus to the structure that serves it.
- `src/msix_manager.rs`: the interrupts of requests that the backend has served.
- `src/rng.rs`: the entropy device, made of all of these.
- `src/locked.rs`: the same steps on state that CPUs share, behind the locks of
  the crate `spin`.
- `app/`: the shared state itself, and the work that an access leaves to do:
  talking to the backend and injecting interrupts.

Structures of a device that share a queue or a vector table name it by its place
in the device's list. Accesses that the device cannot serve, such as one to a
queue that is not there, are told apart beforehand by the functions named
`can_..`; the functions that serve accesses require that they were.

The proof functions named `law_..` state what holds across operations.
