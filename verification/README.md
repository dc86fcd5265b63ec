# nitrogen

A Minecraft proxy: it answers the server list, authenticates players against the session
server, and hands them on to backend servers, relaying their traffic.

`src/` is the verified library (Verus):

- `wire`: VarInts, strings, booleans and UUID bytes of the Minecraft wire format, with the
  round-trip laws.
- `text`: decimal and hexadecimal text, string comparison.
- `config`: the configuration and the listen/connect addresses.
- `protocol`, `status`, `legacy`: protocol versions, the status report and player counts,
  the answer to the pre-1.7 list ping.
- `session`: the server id hash, RSA decryption of the login fields, the session server query
  and its verdict, disconnect messages.
- `profile`, `brand`, `play`, `backend`: game profiles, legacy and Velocity forwarding, brand
  marking, and the login to a backend server.
- `incoming`, `fake_server`: the per-connection state machines of the proxy and of the
  status-only stand-in server.
- `server_handle`: choosing a backend server and the life of the link to it.

`app/` is the program around it: configuration loading, sockets, the packet codec, the HTTP
call to the session server, RSA key generation, JSON, and the connection loops.
