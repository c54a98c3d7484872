# gpui-ui-kit

The decisions of a GPUI component kit, written in Verus and proved against
their specifications: what each widget shows, which keys and clicks it reacts
to and what it reports, how colors are written in hexadecimal, how tables
sort, select and paginate, how a number field is edited, which texts the kit
shows in five languages, and where the dark modules of a QR code fall.

Layout:

- `src/` - the verified library, one module per widget family. Each public
  function states its result in `ensures`; the laws that relate several
  functions are the public `lemma_*` proof functions.
- `tests/` - tests run against the compiled library.
- `app/` - the floating-point side of the kit (easing curves, springs,
  keyframes, HSL colors, value scales, tick marks and value text of the audio
  controls) and the serializable form of `Color`, around the library.

Outside crates: `qrcode` encodes QR codes (called from `src/qr.rs` through a
trusted wrapper), `serde` serializes colors in `app/`.
