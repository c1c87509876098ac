# embystream

The decision logic of an Emby streaming gateway and of its configuration
tools, written in Verus with its contracts proved.

- `src/` — the verified library:
  - `config` — the configuration sections, path-rewrite and anti-reverse-proxy rules;
  - `emit` — what the wizard writes for a configuration (default keys left out);
  - `drafts` — the web studio's draft payload and its round trip to a configuration;
  - `wizard` — how terminal answers become configuration values, menus, file names;
  - `startup` — `WEB_ENABLE` handling, the dual-mode port check, the start-up plan;
  - `playback`, `playback_service` — media-source selection, PlaybackInfo cache keys,
    where a request's API token is found, the item-index lookup steps;
  - `forward` — stream-request credentials, signed-link keys and query, `.strm` resolution steps,
    the status or redirect a stream request is answered with;
  - `gateway` — debug paths, target URLs, caching rules, the PlaybackInfo cache-aside steps;
  - `app_state` — problematic clients, rate limiters and warm-up targets;
  - `mask` — a configuration file shown with its secret values masked;
  - `text`, `decimal`, `digest`, `order`, `auth_header`, `forms` — text, numbers,
    digests, ordering, authorization headers and form encoding.
- `tests/` — tests of the library.
- `app/` — the `embystream` program: the terminal wizard (`config`, `config show`,
  `config template`) and the start-up checks of `run`.
