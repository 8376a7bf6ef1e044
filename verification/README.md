# hudhook

The logic of a render-loop hook library for Windows games, verified with
Verus: the decisions that the hooks make around the graphics APIs, the
window message loop and the process memory, each stated in a contract.

- `src/` is the verified library: byte-pattern search (`bmh`), window
  message filtering and input handling (`msg_filter`, `wnd_input`,
  `input_state`), the MinHook status codes and hook queue (`mh`), memory
  helpers that drive system calls step by step (`pointer_chain`, `region`),
  the DirectX 12 capture bookkeeping (`dx12_state`, `compositor`), the
  renderers' texture, buffer and draw bookkeeping (`texture`, `gpu_buffers`,
  `draw_plan`), the Vulkan set-up choices (`vulkan_setup`), controller input
  (`controller`), process lookup by name (`process_name`), the render lock
  (`render_state`) and out-parameter helpers (`util`).
- `app/` holds the Windows calls around the library: memory reads and
  writes, process lookup and DLL injection, MinHook, the message-loop hook
  and the XInput detour.
- `tests/` exercises the library on concrete values.
