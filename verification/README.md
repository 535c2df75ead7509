# amd_hypervisor

The verified core of an AMD SVM hypervisor driver for Windows, and the
code around it.

- `src/` is the library, verified with Verus: the MSR permission map, the
  nested page tables and the hooks built on them, event injection, the VMCB
  and the #VMEXIT handlers, the trampoline of inline hooks (with `iced-x86`
  decoding and encoding), the hypervisor detection checks, return address
  searches on a stack, and the decisions around kernel memory, processors
  and the control program's I/O controls.
- `app/` is ordinary Rust around it: the Windows kernel and user-mode calls,
  the assembly, reading registers and MSRs, and the control program's `main`.
- `tests/` runs the library on concrete values.
