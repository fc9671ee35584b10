# marshal_formats

Encoders and decoders for a small serialization data model (primitives,
strings, byte strings, options, sequences, tuples, maps, structs and enums),
verified with Verus.

Two wire formats:

* `bin_format`: a self-describing format.  Every value starts with a one-byte
  tag; integers are `vu128` variable-length values; the field and variant
  names of structs and enums are written once per schema as an enum
  definition and referred to by index afterwards, so that a reader whose type
  orders fields or variants differently still finds them by name.
* `fixed`: a layout without tags or names, read with the help of the target
  type's hints.

Layout of `src/`:

* `primitive`, `error`, `text`: the data model's primitive values, the error
  values, and the string helpers the formats need.
* `vu128`: the `vu128` crate behind trusted wrappers, and verified reading and
  writing at a position of a buffer.
* `payload`: the payload of each primitive kind, shared by both formats.
* `encode`, `decode`, `parse`: the interfaces an encoder, a decoder and a
  parser offer, and the wrappers that check the order of the nested handles
  (`poison`) and bound the nesting depth (`depth_budget`).  `decode` also
  holds the helpers that a target type decodes with: skipping a value
  (`ignore`, which ends for every decoder that meets the interface's
  contract), and walking a tuple, a struct or an enum.
* `parse::poison`: the checked handles of the binary format's parser.  Each
  handle holds a guard on a state that the handles of a message share; a
  handle dropped or refused before it was used to the end poisons the state
  with its message, and every later step then fails.
* `bin_format`, `fixed`: the two formats, each with its builders (`full`).

The contracts state, for every encoding step, the exact bytes written and
what decoding those bytes gives back; for every decoding step, the value
read as a function of the input, the position and the schema.  The encoder
and decoder interfaces carry, for each operation, a spec function of the
state before the call that relates the result and the state after it; the
checking wrappers define theirs from the wrapped encoder's or decoder's, so
what a checked encoder writes is what the format's encoder writes.

`app/` gives the errors their human-readable messages.
