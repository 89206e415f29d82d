# kerr

Kerr is a peer-to-peer remote access tool: a remote shell, file transfer,
a file browser, TCP port forwarding, an HTTP/SOCKS5 proxy and DNS
forwarding between two machines, reached through a connection string.

This crate holds Kerr's logic as a library verified with Verus:

- `protocol`, `codec`, `connstr`: messages, framing, connection strings
  (JSON, gzip, URL-safe Base64).
- `transfer`: where uploads land, resuming pulls, and the server's
  file-transfer session (no existing file is overwritten unless forced or
  confirmed).
- `relay`, `proxy`, `socks`, `dns`: stream tables of relayed TCP
  connections, reading proxy requests and SOCKS5 handshakes, pending DNS
  queries.
- `server`, `keys`, `explorer`, `browser`, `display`, `remotefs`, `web`,
  `auth`, `update`, `config`, `logging`, `debug_log`, `ios`: the decisions
  of the server console, the terminal, the file explorer and browser, the
  web interface, login, updates and logs.
- `text`, `numparse`, `paths`, `version`, `ordering`, `stdtext`: text,
  numbers, paths and versions as the standard library reads them.

`app/` is the program around the library: the command line, files on
disk, the wire encoding and the sessions over the peer-to-peer endpoint.
