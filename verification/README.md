# zinx_rs

A small TCP server framework. Clients send frames of the form
`id (u32, big-endian) | length (u32, big-endian) | payload`; the server
decodes each frame into a `Message`, hands it as a `Request` to the router
registered for its id, and sends the reply back as a frame.

- `src/` is the verified library (Verus): the message type, the codec
  (`datapack`, `cursor`, `wire`), frame extraction and the reader's decisions
  (`frame`), requests and routers (`request`), the routing table
  (`msghandler`), the server's settings (`server`, `config`), and the
  properties that tie these together (`laws`).
- `app/` is the program around it: the accept loop, one reader and one writer
  thread per connection, the settings file, and a test client (`zinx cli`).
- `tests/` runs the library on concrete inputs.
