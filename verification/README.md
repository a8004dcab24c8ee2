# plumber

Verified core of a Source engine asset importer for Blender.

- `src/loops.rs`: flattening grouped data into flat buffers, and lemmas on
  where each group lands in them.
- `src/brush.rs`: brush solids laid out as Blender mesh buffers (flat vertex
  coordinates, per-loop vertex indices, uvs and colors, per-polygon loop starts
  and totals), generic over the scalar type.
- `src/importer.rs`: import options given by keyword, their folding into option
  sets, the callback each asset kind goes to, and the session that hands out the
  importer once.
- `src/text.rs`: string comparison by characters.
- `app/`: the Python classes (pyo3) around the library, the float conversions
  of uvs and vertex alphas, and the calls into the importer and Python.
