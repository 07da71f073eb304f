# Little Bobby TaBots

A self-hosted Discord music bot whose rules are proved with Verus.

- `src/` is the verified library: what a guild's queue does, how it stays in step with the voice
  driver's playback queue, in which order a request goes from its text to the queue, how predefined
  playlists are found and read, what the slash commands and the dashboard decide and answer, when
  pre-play audio is inserted, and when the bot leaves an empty voice channel. It does no I/O.
- `app/` is the program around it: Discord and voice events, `yt-dlp`, the playlist directory, and
  the dashboard's HTTP server. It performs what the library decides and hands back what came of it.
- `tests/` runs the library on concrete values.

Two things are taken on trust, and both say so where they stand: that `String::push` appends a
character, and that a random number lies below its bound.

Building the program also takes `songbird` 0.6 with its `builtin-queue`, `driver`, `gateway`,
`native`, `serenity` and `tungstenite` features, and with it the Opus library. The program needs
`ffmpeg` and `yt-dlp` in the `PATH`.

## Configuration

| Variable | Meaning |
| :--- | :--- |
| `DISCORD_TOKEN` | The bot's token. |
| `GUILD_ID` | The server in which commands are registered and which the dashboard controls. |
| `VOICE_CHANNEL_ID` | The channel that the dashboard joins when the bot is not in voice. |
| `PREPLAY_URL` | The clip that `/preplay` uses when it names none. |
| `PREPLAY_CHANCE_PERCENT` | The chance of a clip between two tracks, 0 through 100; 75 if unset. |
| `PLAYLISTS_DIR` | The folder of predefined playlists; `playlists` if unset. |
| `WEB_BIND` | The dashboard's address; `0.0.0.0:3000` if unset. |
| `DASHBOARD_DIR` | The dashboard's files; `web/dist` if unset. |
