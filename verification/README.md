# vfx_ocio

A color management configuration library in the style of OpenColorIO: color
spaces, roles, displays and views, looks, view transforms, file rules, viewing
rules, context variables, config files in YAML, and built-in ACES and studio
configs.

## Layout

- `src/` is the library, written in Verus. Every function there carries a
  contract that Verus proves: parsing a config from YAML (`config_parse`),
  writing it back (`config_text`), validation (`config_check`, `validate`),
  color space lookup through names, aliases and roles, file rules
  (`file_rules`), context variable substitution (`context`), the transform
  chains that a processor, a look or a display/view applies (`chain`), the
  builder (`config_builder`), the built-in configs (`builtin`), and which
  built-in transform a style name selects (`builtin_transforms`). Laws that
  relate several operations are proof functions in `config_laws` and beside the
  types they speak of.
- The calls into `saphyr` (YAML), `regex` and `glob` go through small trusted
  wrappers (`yaml_load`, `patterns`) whose contracts state what those crates
  document.
- `app/` is ordinary Rust around the library: reading and writing config files,
  the process environment, CPU feature detection, and the floating-point pixel
  math (transform parameters, the numbers of the built-in transforms, the ACES 2.0 output transform, grading hue
  curves, SIMD kernels), which the library does not hold.
- `tests/` runs the library on concrete inputs.
