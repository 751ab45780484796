# touch_id

Touch ID-protected keystore unlocking, with its logic verified by Verus.

Enrolling a keystore seals its password with a key of the Secure Enclave and keeps the sealed
password in a sidecar file next to the keystore; unlocking has the enclave unwrap it.

- `src/` is the verified library. It performs no I/O: each operation is a chain of steps, where a
  step says what is to be asked of the disk, the JSON reader or the enclave, and takes the answer.
  `src/laws.rs` states and proves what holds of the operations taken together. `src/swift.rs`
  decides whether a Swift toolchain can build the enclave shim.
- `tests/` runs the library against a disk in memory and a toy enclave.
- `app/` is the unverified shell: the shim's C interface, files, JSON, and the build of the shim.
