# ews_scale_sim

An interactive multi-scale simulator that publishes each scale's reading
over MQTT and takes remote zero commands.

- `src/` is the verified library: the scales and their selection
  (`state`), the key bindings and edit forms (`input`), the topic rules and
  connection events (`mqtt`), the display rules (`ui`), the `str`/`String`
  operations it relies on (`text`), and properties proved across calls
  (`laws`). Readings are whole thousandths of the scale's unit.
- `app/` is the terminal program around it: argument parsing, the
  terminal, the broker connection, JSON payloads, and the conversions
  between decimal numbers and thousandths.
- `tests/` exercise the library.
