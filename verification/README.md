# arcticoj

The verified core of the ArcticOJ online judge, written in Verus.

- `src/` is the library; every function in it is verified.
  - `cryo`: the zygote protocol: `clone3` arguments, resource limits, and
    how a request becomes the setup of a judged process.
  - `igloo`: the judge: the cgroup tree, container setup, id maps, and the
    self-tests of the language runtimes.
  - `sandbox`: the interface of an isolated environment.
  - `blizzard`: the web API's decisions: password hashing, session tokens,
    login and registration, and error responses.
  - `text`: decimal rendering and string helpers.
- `tests/` runs the library on concrete values.
- `app/` is the program around it: command line, configuration loading,
  system calls, sockets and the zygote's serving loop.
