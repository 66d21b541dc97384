# prism_query: `json_extract_string`

The SQL scalar function `json_extract_string(column, 'key')` reads the member
`key` (a literal, top-level member name) of the JSON object in each row and
returns it as text: the string itself for a JSON string, the JSON text for any
other non-null value, and NULL for a NULL row, text that is not JSON, a root
that is not an object, an absent member, or a JSON `null`.

- `src/json.rs`: the calls into `serde_json`, each behind one trusted wrapper
  whose answer is named over the parsed text and the member name.
- `src/extract.rs`: one row: the lookup of the member and its SQL value, with
  the laws of the function.
- `src/udf.rs`: the function over a batch (column or scalar arguments, NULL
  key, refused argument types) and its declaration.
- `app/lib.rs`: the DataFusion `ScalarUDFImpl` registration, which converts
  DataFusion's arguments and results to and from the library's.
