# backpacktf

Response deserializers for the backpack.tf API, with their decisions
verified in Verus.

- `src/` is the verified library. `json` models a JSON value as
  `serde_json::Value` holds one; `decimal` reads unsigned decimal text as
  `str::parse::<u64>` does; `error` holds the deserialization errors;
  `response::deserializers` decides, for each field deserializer, what a
  value becomes or which error it gives; `response::listing::attributes`
  holds the listing attribute types and finds an attribute's strange part
  through `tf2_enum`.
- `app/` holds the serde side: the functions with the signatures that
  `#[serde(deserialize_with = ...)]` expects, the conversion between
  `serde_json::Value` and the library's model, and the attribute types with
  their serde derives.
- `tests/` runs the library on concrete values.
