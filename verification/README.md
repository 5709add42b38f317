# vale_gateway

The decision logic of the Vale Gateway control plane and of its command line
tool `vgctl`, as a library whose functions carry contracts that Verus proves.

- `src/`: the verified library. It selects the gateway class, its parameters,
  its gateways and their routes; merges each gateway's parameters with its
  class's; collects backends and extension filters;
  builds each gateway's configuration; plans the configuration maps,
  deployments and services to create, patch or delete; builds the statuses
  written back; records which configurations are served once their
  configuration map actions are handed to the writer; answers the gateways' configuration, event and static
  response requests; and lays out what `vgctl` lists and shows.
- `tests/`: tests of the library on concrete values.
- `app/`: the programs around the library (`control-plane`, `vgctl`,
  `controller`): command lines, Kubernetes reads and writes, the HTTP
  endpoint, serialization and table rendering.
