# sandbox_research

The verified core of a small Windows sandbox. A broker service starts the
program of an application profile suspended, injects a hooking library into
it, registers it with a driver and lets it run; the hooking library redirects
file-system paths below the user's profile directory into a private area and
sandboxes the processes the program starts in turn; a user interface manages
the profiles and asks the broker to start and stop them.

- `src/` is the library, verified with Verus: profiles and their validation,
  failure texts, the client and server state machines, the launch and
  injection protocols, wide-string handling and path redirection.
- `tests/` exercises it on concrete values.
- `app/` holds what talks to the operating system and the network: Win32
  calls, the gRPC plumbing and the entry points of the programs.
