# thiscord

A voice-chat service: accounts with e-mail activation, servers that users
join with an invitation string, roles and rights, text and voice channels,
and voice rooms of ten seats joined over a WebSocket.

## Layout

- `src/` is the verified library (Verus). It holds the service's rules and
  state, each function with a contract:
  - `auth`, `activation`: who may log in, password hashing, activation codes
    and mails;
  - `permissions`, `handlers`: which right an action needs, what a user may
    see, and the HTTP answer to each request;
  - `voice_room`, `seating`, `channels`, `online`: seats of voice rooms,
    moves of a user between rooms (a user holds at most one seat, and the
    recorded channel is the room of that seat, except after a move to a full
    room, which leaves the user without a seat and the old channel
    recorded), the people in a channel, the servers connected users look at;
  - `servers`, `turn`, `ids`, `text`: image paths, invitation strings, TURN
    credentials, UUID and decimal text;
  - `protocol`: what each side of the WebSocket does with a message;
  - `audio`, `audio_config`, `audio_devices`, `commands`, `status`: the
    client's audio settings, per-user volumes, device choice, session and
    call state.

  Calls into argon2, rand, uuid, dashmap, hmac/sha1, base64 and chrono go
  through small trusted wrappers whose contracts say what the library relies
  on.
- `tests/` runs the library on concrete values.
- `app/` is the server program: HTTPS routes (axum), sessions (axum-login),
  storage (diesel on PostgreSQL), mail (lettre) and the WebSocket loop. It
  reads requests, hands plain values to the library and performs what the
  library decides.
