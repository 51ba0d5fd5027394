# bevy_stdb_auth

Session lifecycle logic for [SpacetimeAuth](https://spacetimedb.com/docs/core-concepts/authentication/spacetimeauth/)
tokens, verified with Verus, and the Bevy plugin that runs it.

## Layout

- `src/` is the verified library:
  - `token.rs` normalizes token endpoint responses into a session and its
    credential material;
  - `refresh.rs` decides when a session is due for refresh and merges a
    refresh response into the previous session;
  - `oidc/` builds authorization requests, parses callbacks, validates the
    native loopback redirect and handles the callback request, and cleans
    browser callback URLs;
  - `steam.rs` builds the Steam ticket grant;
  - `commands.rs` decides the work of a logout and builds the end-session URL;
  - `plugin.rs` is the authentication state machine: command admission,
    pending operations, automatic refresh and its retry backoff;
  - `urls.rs`, `text.rs` and `form.rs` hold URL, string and form helpers.
- `tests/` exercises the library on concrete values.
- `app/` is the Bevy plugin around the library: resources, systems, command
  queueing, messages, and the network, browser, keyring and Steam work.

Durations and instants in the library are counted in nanoseconds on the
monotonic clock of the application.
