# task

The `Task` structure for supporting multithreading in a kernel, and the code that deals with tasks:
creating them, switching between them, and waiting for their end.

- `src/` is the library. It is verified with Verus, but for what it takes for granted of calls into
  other crates and the standard library: the cells of `crossbeam-utils` (`cells`), the virtual
  addresses of `x86_64` (`address`), the quoted form of a string (`text`), and that numbers can be
  hashed (`hashing`).
  - `run_state`: the run states of a task and the transitions between them.
  - `task`: the task structure. The things that a task owns but never looks into (its stack, its
    exit value, ...) have types that an implementation of `Platform` chooses.
  - `task_ref`: plain, counted and joinable references to tasks, and the task list.
  - `system`: all tasks of a system, the registers of a core, what makes both valid, and when a task
    can be released.
  - `current`: the current task of a core.
  - `lifecycle`: creation, blocking, exiting, reaping and joining of tasks.
  - `switch`: switching a core from one task to another.
  - `bootstrap`: the first task of each core.
  - `hashing`: what tasks and references give to a hasher.
  - `panic_info`, `exit`, `text`: why a task ended, and the texts that tell it.
  - `laws`: what holds of the operations taken together.
- `tests/` runs the library.
- `app/` is the subsystem around the library: the lock, the registers and the context switch.
