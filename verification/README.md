# bevy_toolbox

A toolbox for scripted 3D scenes in Bevy: Lua-scripted parts, a cooperative
scheduler for script threads, a tween service and a follow camera.

- `src/` is the verified core (Verus). It holds the logic that involves no
  floating-point values and no engine calls: the part handle counter and the
  handle table that routes script commands to scene entities, the scheduler's
  per-thread decisions and its thread list, tween playback control (states,
  repetitions, reversing) with its laws, and the camera's input gating.
- `app/` is the Bevy and mlua side: components, resources, plugins, systems
  and Lua bindings, which keep the clocks, the interpolation and the world
  access, and call into `src/` for every decision.
