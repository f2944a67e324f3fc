# occt-rs

The verified core of a Rust binding layer for OpenCASCADE Technology (OCCT).

`src/` is a Verus library.  It holds what the binding decides and formats
on its own, with contracts proved by Verus:

- `error` — the decoding of the `OCCT:<class>:<message>` text that the C++
  shim puts into every rethrown exception, and the error types;
- `guid` — `OcGuid` and its canonical `8-4-4-4-12` text, printed and parsed;
- `label_path` — `LabelPath`, a label's tag path written `0:1:2`, printed
  and parsed;
- `kinds` — the OCCT enumerations (`TopAbs_ShapeEnum`,
  `TFunction_ExecutionStatus`, `TDataXtd_GeometryEnum`,
  `TDataXtd_ConstraintEnum`, `TNaming_Evolution`) and their integer tables;
- `checks` — the status checks that follow each OCCT call (builder status,
  shape type, boolean-array index, recorded geometry);
- `mesh` — the 0-based indices of mesh triangles read back from OCCT;
- `keys`, `markers` — shape identity keys and the zero-sized handles of
  label-level OCCT interfaces, with the GUID layout of function drivers;
- `hexnum`, `decimal`, `seqs`, `text` — the number and text machinery the
  parsers rest on.

`app/` is the binding itself: the FFI calls through the `occt_sys` bridge,
the floating-point geometry, and the `Display` forms of the errors.  It
calls the library for every decision listed above.
