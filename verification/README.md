# gtk_layout_inspector

Layout inspection for GTK4 applications, verified with Verus.

`src/` is the verified library:

- `text` — character-level helpers: decimal and hex rendering, substring
  search, `Path::file_name`-style path components, integer parsing.
- `output` — `WidgetInfo`, `LayoutEntry` and `LayoutDump`: short
  descriptions, dump lines, the text dump, and searches over a dump.
- `traverse` — a snapshot model of the widget tree (`WidgetNode`), widget
  identification by class priority, the pre-order dump, and searches that
  return pre-order positions.
- `style` — hex colors and the choice of a background color by theme name.
- `screenshot` — capture preconditions, the retry decision, and the
  JPEG/base64 encoding of screenshots (through the `image` and `base64`
  crates).
- `server` — the socket protocol: requests, responses, how each request is
  served, socket naming and stale-socket detection; `server::client` reads
  responses on the client side.

`app/` is the GTK-facing side: it reads live widgets into the snapshot model,
runs the socket server with tokio, captures screenshots, and offers the client
calls. `tests/` exercises the library.
