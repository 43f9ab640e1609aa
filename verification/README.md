# saddle-world-lighting

Day/night lighting for Bevy: sun and moon paths, lighting gradients, fog,
exposure and atmosphere, driven by the time of day.

- `src/` is the verified library (Verus): the runtime state machine of the
  lighting plugin (activation, deactivation, managed-light spawning, whether a
  lighting update is smoothed or taken at once), the choice of smoothing window
  per clock step, the per-camera plan of which fog, exposure and atmosphere
  components are updated or inserted, and the write counters.
- `app/` is the Bevy plugin and its systems, together with the floating-point
  lighting model (celestial solver, gradients, colour temperature, weather
  modulation), which calls into the library for every decision above.
- `tests/` exercises the library on concrete values.
