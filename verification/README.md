# copernicus_explorer

A client for searching and downloading Sentinel products from the Copernicus
Data Space Ecosystem (CDSE), with its core written in Verus and proved
against its contracts.

## Layout

- `src/` — the verified library:
  - `models.rs` — missions, their collection names and known product types;
  - `search.rs` — the query builder, the OData `$filter`, sensing dates in
    scene names, reading the catalogue's replies;
  - `geometry.rs`, `json.rs` — points, boxes and polygons, their WKT, and
    GeoJSON documents;
  - `auth.rs`, `download.rs` — the token request and reply, download URLs
    and file names;
  - `s3.rs` — rclone-style INI credentials, the order credential sources
    are tried in, `s3://bucket/prefix/` outputs and object keys;
  - `dates.rs` — calendar dates and UTC instants (chrono does the calendar);
  - `form.rs` — the search query of the interface's filters and of the
    command line's options, and the default 30-day acquisition window;
  - `session.rs`, `keys.rs`, `panes.rs`, `tui.rs` — the state of the
    interactive terminal interface, what each key does to it, and the texts
    it shows;
  - `laws.rs` — properties of the library as a whole;
  - `text.rs`, `error.rs` — strings and the error type.
- `tests/` — tests of the library.
- `app/` — the program around it: the command line, HTTP requests, files
  and the environment, the terminal loop and its drawing, and the parts that
  compute with floating point (coordinates, cloud cover, progress ratios).

Coordinates and cloud-cover thresholds cross into the library as the decimal
text that `f64`'s `Display` (or `{:.2}`) writes for them.
