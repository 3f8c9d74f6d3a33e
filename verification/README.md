# megalodon (Pleroma requests, verified)

A Pleroma API client split in two:

- `src/` is a Verus-verified library. For every API call, `Pleroma` builds a
  `Request` (method, path with query string, form fields or multipart
  parts) whose contract states it exactly: the path, every query item in
  order, and every form field as a map from names to values. It also holds
  the Firefish instance entities and their conversion into the shared
  entity types, the streaming endpoints, and the text encodings the
  requests use (decimal numbers, query strings, JSON arrays, percent
  encoding, SHA-1 file names, RFC 3339 instants).
- `app/` sends those requests with reqwest, streams uploaded files from
  disk, reads JSON answers, and runs the application registration flow.

Layout of `src/`:

| module | contents |
| --- | --- |
| `text` | decimal rendering, booleans, concatenation; decimal round trip |
| `form` | form fields with map semantics (one value per name) |
| `query` | query items and their rendering after a path |
| `request` | `Request`, `Body`, `Part` and their views |
| `external` | calls into sha1, hex, urlencoding, serde_json, chrono, oauth2 |
| `options` | inputs of the API calls, `UtcDateTime`, `AppData` |
| `entities`, `firefish` | shared and Firefish entity types, conversions |
| `pleroma` | the client and one request builder per API call |
| `laws` | properties of the encodings and builders |
