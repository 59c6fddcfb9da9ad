# bevy_fast_mist

Simple moving 2D mist for Bevy, focused on performance over features.

- `src/` is the verified core (Verus): the keys of the mist render phase and
  the pipeline key a mist mesh is specialized with (`phase`), the plan that
  keeps one noise texture per mist frequency and the texel layout of those
  textures (`noise`), and the choice of camera views that keep a mist phase
  (`view`).
- `app/` is the Bevy plugin around it: ECS systems, GPU resources, shaders,
  and the floating point work (colours, noise sampling, offsets).
- `tests/` exercises the verified functions on concrete values.
