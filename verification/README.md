# livechat

Verified decision logic of LiveChat, a Discord-to-overlay media relay: a
server whose bot listens to one Discord channel and relays the pictures,
videos and sounds posted there over WebSocket, and a transparent overlay
window that shows them.

- `src/` — the library, verified with Verus:
  - `text` — trimming, prefixes, case, splitting, over the characters of a string;
  - `encode` — percent-encoding, TOML string literals and the JSON `type`
    member, taken from `percent-encoding`, `toml` and `serde_json`;
  - `config` — the overlay's settings: defaults, when it can connect, the
    WebSocket URL, what saving keeps or refuses, `config.toml`;
  - `startup` — finding or creating `config.toml` and the start-up report;
  - `link` — the overlay's connection loop with its backoff;
  - `updater` — update runs;
  - `status` — the notices shown by the overlay;
  - `media` — which attachments and links are media, and the events of a message;
  - `server` — the server's settings, start-up checks, authentication and send loop;
  - `youtube` — YouTube links when a public URL is set: recognising them,
    the downloader's arguments, the 30-minute and 150 MB limits, the
    reactions, and which files are served.
- `tests/` — tests of the library.
- `app/` — the two programs around it (Discord, WebSocket, Tauri, files).
