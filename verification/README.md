# qcs

A library for running Quil programs on Rigetti QPUs and on the QVM, written in Verus: the
decisions of the QCS SDK stand in `src/` with contracts that Verus proves, and the network,
serialization and floating-point work around them stands in `app/`.

## Verified (`src/`)

- `qpu::api`: execution options and their builder, the targets of controller requests, where
  a QPU's gRPC address is looked up, the choice of a gateway accessor across pages, the ID of
  a submitted job and the outcome of an executed one.
- `qpu::translation`: translation options and the backend each option belongs to.
- `qpu::runner`, `qpu::result_data`, `qpu::readout_data`: decoding raw result buffers and
  reading the values of a job's registers and memory references.
- `qpu::rewrite_arithmetic`: converting gate parameters, phases, scales and frequencies into
  the units that QPUs read, with every remaining arithmetic expression moved into a slot of
  `__SUBST`; quil-rs does the expression simplification.
- `qpu::engagement`: what an answer to an engagement request means.
- `qpu::experimental`: the control system's LFSR and the sub-regions it draws, the externed
  `choose_random_real_sub_regions` call, randomized measurements and the ZXZXZ unitary set.
- `qpu::quilc::isa`: the instruction set architecture in the form quilc reads.
- `qvm`: QVM options and requests, the checks that parameters fit their regions, and the
  requests and results of runs through libquil.

Calls into quil-rs, prost and std that the logic needs are made through small trusted
wrappers, each with a contract that states what the outside function gives.

## Around the library (`app/`)

- gRPC calls to the controller service, and the composition of the QCS API lookups that find
  a QPU's address; the lookups themselves are passed in.
- JSON bodies exchanged with the QVM and quilc.
- Converting quil-rs programs to and from the library's models (rewritten arithmetic,
  randomized measurements), and applying parameter values, which are floating point.

## Tests

`tests/` holds the tests, run against the compiled library.
