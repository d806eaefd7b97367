# wired_script

The guest side of the `wired` and `unavi` WebAssembly component interfaces,
as scripts use it, verified with Verus.

- `rt`, `abi`: ownership of resource handles, and lifting values out of the
  memory a host call writes into (loads, options, lists, strings), with
  lowering of the values handed back.
- `layout`, `shapes`, `input`, `math`, `physics`, `player`, `scene`, `log`,
  `dwn`, `event`: the resources, enums and records of each interface, with
  their lifts and lowerings. Floating-point values are carried as their
  IEEE 754 bit patterns.
- `beacon`, `home`, `vui`, `kv`, `property`, `gltf_property`,
  `scene_property`: the decisions that scripts take between host calls.

`app/` holds what stays outside the library: floating-point arithmetic,
the serde form of stored values, and message text.
