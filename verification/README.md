# uprobestats

The decision logic of a service that attaches uprobes to Java methods of Android
processes and reports what the probes see as statistics atoms, written in Verus
with its contracts proved.

- `src/` is the verified library: the guardrail that decides which configurations
  may run on user builds, the resolution of a configuration into a task and the
  probes to attach (flags, BPF paths, offsets queries and their retry policy,
  `oatdump` output, Binder filters), the choice of how a task's process is found,
  and the decoding of the records that the BPF programs write into their maps.
- `tests/` runs the library on concrete values.
- `app/` is the thin layer around it: reading the configuration file, calling the
  platform's services and the BPF loader, running `oatdump`, waiting and polling,
  and writing the atoms that the library decides on.
