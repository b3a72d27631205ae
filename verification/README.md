# ClickHouse query parameters, verified

Values for `{name:Type}` placeholders of chDB queries, and their encoding
into the strings that the libchdb C API takes, with the encoding proved
against a mathematical model.

- `src/text.rs`: decimal integers and quoted string literals, with the proofs
  that both read back.
- `src/param.rs`: `QueryParam`, its model `ParamValue`, the root and nested
  encoding rules, and their laws.
- `src/convert.rs`: conversions of Rust values into parameters.
- `src/params.rs`: the `QueryParams` builder and `EncodedParams`, the
  parallel name/value strings checked for NUL characters.
- `src/error.rs`: `ParamError`.
- `app/`: the C strings and pointer arrays for the FFI call, and the
  floating-point conversions.
