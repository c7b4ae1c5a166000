# timeline_date

Localised timeline date labels: an event instant is classified against an
explicit "now" in the user's time zone (feed buckets such as "just now",
"8 min ago", "yesterday at …"), the user's locale preferences are negotiated
against the bundled catalogs, and the classification becomes an MF2 message
key with the arguments it reads. Dates and times inside messages are shown in
the user's time zone with ICU4X layouts.

The library in `src/` is verified with Verus; its contracts speak of
mathematical models (civil day numbers, sequences of characters, the option
combinations the catalogs use). Local dates and times are those of the zone
named by the options' identifier: each is the instant shifted by that zone's
offset at the instant. The offsets come from the time zone database and are
kept as a model that is only known to stay within 25:59:59 and to be zero
for a zone named "UTC" (up to ASCII case), so the laws about older events
reading older hold for any fixed offset and reach formatters set to "UTC".

## Layout

- `src/options.rs` – formatter options and their builders.
- `src/locale.rs` – locale parsing and lookup negotiation.
- `src/time.rs` – instants, civil dates, time zones (through `jiff`).
- `src/classify.rs` – feed buckets and the laws of classification.
- `src/formatter.rs` – the formatter: classification and message preparation.
- `src/mf2.rs` – message keys, message arguments, prepared messages.
- `src/datetime.rs` – date and time placeholder options, layout selection,
  conversion of local date and time values for ICU.
- `src/icu.rs` – the calls into ICU4X.
- `src/backend.rs` – the formatting backend of one locale, hour cycle and
  time zone.
- `src/ffi.rs` – string-based entry points and their argument parsing.
- `src/error.rs`, `src/bucket.rs`, `src/text.rs` – errors, buckets, text
  helpers.
- `app/` – catalog loading and rendering through `mf2_i18n`, the
  `FormatBackend` implementation, and serde / `std::error::Error` forms of
  the library's types.
- `tests/` – tests of the library.

The compiled catalogs are read at run time from the directory given to
`set_catalog_dir` in `app/`.
