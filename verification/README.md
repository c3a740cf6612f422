# iommufd_ioctls

Verified decisions of an iommufd client, in Verus.

iommufd is the Linux interface through which user space manages IO page tables. The library
under `src/` decides what a virtual machine monitor asks of it when it sets up virtual IOMMUs and
virtual devices for ARM SMMUv3: which ioctls, with which arguments and in which order, what the
replies mean, and what is to be destroyed in the end. It performs no I/O; each of its methods says
what is to be done next, and takes what came of it.

- `src/` holds the library and its proofs. `lifecycle.rs` states what holds of the life of virtual
  IOMMUs and virtual devices as a whole.
- `tests/` runs the library on concrete values, and holds its constants against
  `iommufd-bindings`.
- `app/` is the client on a running kernel: it opens `/dev/iommu`, issues the ioctls, and
  destroys kernel objects when their owners are dropped.
