# iii-worker

The worker host of the iii engine: it boots workers and sandboxes in libkrun
microVMs, runs commands and file operations in them, and ends with the engine
that started it.

- `src/` is the verified library. It decides: what a VM is booted with and what
  its first process is told (`cli::vm_boot`, `cli::boot_plan`,
  `cli::control_proxy`, `cli::shell_words`), what a worker is started with and
  how it is stopped (`cli::worker_manager`), what the command line and the
  worker manager daemon ask for (`cli::dispatch`, `cli::worker_manager_daemon`),
  when a daemon ends itself (`daemon_exit`), and what sandboxes admit, run, list,
  stop and reap (`sandbox_daemon`).
- `app/` is the program around it: arguments, processes, sockets, signals and
  the connection to the engine. The image cache, the hypervisor and the link
  into a VM are linked in behind the traits of `app/host.rs`.
- `tests/` runs the library with the crates it calls.

Every verified public function states what it returns or changes. Public proof functions
state what holds across calls: that a quoted command line reads back, that a
file operation changes nothing but a sandbox's last use, that a lifeline handed
to a child is the one the child finds. What is taken from other crates without
proof stands in `text`, `paths`, `ids`, `encoding` and `sandbox_daemon::exec`,
each with a comment that says what is claimed of it.
