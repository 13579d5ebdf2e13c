# openwork_workspace

The verified core of OpenWork's workspace bootstrapper.

- `src/plugins.rs` merges the plugins a preset requires into a configuration's
  plugin list, with the laws of that merge.
- `src/json.rs` describes `serde_json` documents and maps as trees and wraps
  the `serde_json::Map` methods the logic calls; `src/config.rs` applies a preset to `opencode.json(c)`
  (`src/config_laws.rs` holds what that guarantees).
- `src/archive.rs` decides which entries of the enterprise skill archive are
  installed, and reads them with `zip`.
- `src/seeds.rs`, `src/seed_texts.rs` list the skills, commands and agents each
  preset seeds.
- `app/lib.rs` does the file-system and network work around them.
