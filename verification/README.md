# zerosim_tools

Verified core of the tooling around the 0sim simulator: a job server that
schedules experiments on a pool of machines, its command-line client, a
runner of experiment lists, and the command builders that set up machines and
run workloads on them over SSH.

## Layout

- `src/` is the library, verified with Verus.
  - `text.rs`: character-level string operations (replacement, decimal and
    hexadecimal rendering, whitespace, byte-length truncation).
  - `jobserver/`: the wire messages (`proto`), command templates and the
    Cartesian product of matrix variables (`template`), why the order of
    substitution does not matter (`substitution`), the server's state and
    its answer to every request (`server`, `requests`, `admission`),
    scheduling (`scheduler`) and the removal of cancelled entries over
    rounds of it (`cancellation`), running jobs and setup tasks (`runs`),
    the client's listings (`client`), and the laws that span requests
    (`laws`).
  - `runner/`: commands and decisions of the experiment runner: workloads,
    kernel builds, swap devices and the VM, output file names, research
    settings, machine setup plans, the workload names of some experiments,
    and the steps of the temporary experiment (`exptmp`).
  - `runall.rs`: the pool of machines and the command lines of an
    experiment list.
  - `cloudlab.rs`: the commands that set up a CloudLab node for vagrant
    with a kernel built from `linux-dev`.
- `tests/` holds the tests.
- `app/` is the program around the library: the job server's sockets and
  threads, the client's command line and tables, the experiment-list
  runner, the machine setups and the temporary experiment over SSH. Its
  first argument names the program: `server`, `client`, `runall`, `setup`,
  `cloudlab` or `exptmp`.
