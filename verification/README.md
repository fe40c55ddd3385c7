# script_sys

Runs scripts of MATLAB-like interpreters (such as GNU Octave), either as a local child process or
inside a podman container, and reads back the variables a script leaves behind as JSON.

- `src/` is the verified library: how a script is wrapped before it is sent to the interpreter,
  how the values are read back from the interpreter's output, when an interpreter process is
  started and which texts it is sent, and how a podman release is located, laid out, configured
  and invoked. Maps keyed by strings are `str_map::StrMap`; JSON values are `serde_json::Value`.
- `app/` holds what needs processes, files and the network: the child processes, the runner loop,
  the podman download, lock files, and the traits `Run`, `RunScript`, `SetInitScript`, `Clean`,
  `Load` and `Install`.
- `tests/` runs the library on concrete values.
