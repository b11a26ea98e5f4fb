# falach_api

The session core of the Falach vault frontends, verified with Verus.

A session is locked or unlocked. Unlocked, it holds an open vault and the credentials
that opened it. It locks on request, on shutdown, after a time without user activity,
and when its frontend stays in the background longer than the grace time or goes away.
Each change is announced to the frontend's event sink.

| Path | Content |
| --- | --- |
| `src/session.rs` | `AppSession`, `init_app`, the ticker's decisions |
| `src/state.rs` | the state that one thread may touch at a time, and one tick of it |
| `src/lifecycle.rs` | lifecycle codes and the grace time in the background |
| `src/auto_lock.rs` | the idle auto-lock controller |
| `src/credentials.rs` | master password and keyfile, wiped when dropped |
| `src/registry.rs` | vaults by name |
| `src/event.rs` | event sinks |
| `src/outlet.rs` | the one place through which events leave a session |
| `src/time.rs` | moments, spans, and the two clocks |
| `src/laws.rs` | what holds across several operations |
| `app/` | mutex, atomics, ticker thread, and the calls into the vault core |

`src/` holds no I/O but the reading of clocks. Opening a vault and loading the registry
are closures that the caller passes in; the contracts say what they are called with and
what the session makes of their results.
