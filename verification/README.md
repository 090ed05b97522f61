# zkcoprocessor

Stores Ethereum value transfers in a TigerBeetle ledger and proves their
integrity with the ZisK or SP1 zkVM.

- `src/` is the verified library: transfer ids and account ids derived from
  Ethereum transactions, the plans that store a block's value transfers, the
  validity rules of the two guest programs and their input formats, the
  inclusion hash and the records of generated proofs, the course of a proof
  with the ZisK toolchain, the ledger scans and tallies of the inspection and
  batch commands, and the text of every report. Each public function carries
  a contract, and the library's laws are proof functions beside the code
  they speak of.
- `app/` is the program around it: command-line parsing, the TigerBeetle and
  Ethereum clients, the `cargo-zisk` and SP1 processes, files on disk, and the
  floating-point rates of the performance summaries.
- `tests/` runs the library on concrete values.
