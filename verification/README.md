# gpu_culling

Decides how a renderer culls objects on the GPU, and proves that the decisions
fit together.

- `src/` is the library, verified with Verus. It sorts objects by distance,
  lays out the input of the culling shaders, describes buffers, bind groups and
  pipelines, and records the commands that cull and draw. It hands out plain
  values and touches no device.
- `app/` carries the decisions out on a `wgpu` device.
- `tests/` runs the library.

| Module      | What it decides                                               |
|-------------|---------------------------------------------------------------|
| `sorting`   | the order in which objects are drawn                          |
| `scene`     | what is read of objects, materials and the camera             |
| `cull_data` | the words of the input buffer, and how they are read back     |
| `bytes`     | memory images of words                                        |
| `resources` | descriptions of layouts, pipelines, buffers and bind groups   |
| `culler`    | the layouts and pipelines of the culler                       |
| `pass`      | the commands of a culling pass                                |
| `scan`      | what a culling pass works out: the prefix sums of its marks   |
| `cull`      | the plan for culling one group of objects                     |
| `draw`      | the commands that draw what is left                           |
| `spirv`     | which bytes are taken for a shader                            |

Floating point numbers pass through the library as bit patterns. Bytes are in
the byte order of the machine.
