# openmix

The float-free core of the OpenMix DJ engine, written in Verus and proved
against its contracts:

- `key` — the 24 musical keys, relative keys, Camelot-wheel positions and
  keys from a tonic, with the wheel's laws (relatives share an hour, the
  wheel names each key once, a fifth up is the next hour).
- `beats` — bar labels of beat grid lines and spaced onset picking.
- `capture` — the bounded windows that hold the analysed stream (the most
  recent samples, the first samples) and the analysis configuration check.
- `meta` — track metadata from file tags.
- `digest` — streamed SHA-256 content fingerprints in lowercase hex.
- `stamp`, `text` — decimal time stamps.
- `store` — project identifiers, the JSON guard of the store and the
  analysis cache rule.
- `error` — the engine's and the store's error types.

`app/` holds what stays outside the proofs: decoding with symphonia, the
floating-point signal analysis (aubio, rustfft), the SQLite store and the
command entry points.
