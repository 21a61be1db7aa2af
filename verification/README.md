# kvm_compose

The decision logic of a testbed orchestrator for libvirt virtual machines, docker containers
and Android virtual devices connected by an OVN software-defined network, written in Verus
with every function proved against its contract.

## Layout

- `src/ovn/`: the OVN logical network (switches, ports, routers, OVS ports, ACL records,
  routes, gateways, address translation and DHCP entries), the commands that create and remove
  each component, and the network model (`ovn_state.rs`) with its laws: adding and then
  removing a component gives the network back, and a second add under a taken name is refused
  and changes nothing.
- `src/state/`: the testbed state (hosts, guests, network) and, under `orchestration_tasks/`,
  the plans of deploying and destroying guests and the network: which commands run on which
  host and what each answer decides. The deployment of a container, libvirt guest or Android
  device, and the making of a libvirt guest's artefacts, are step functions (`*_create_step`,
  `libvirt_artefacts_step`) from the replies so far to the next action, which fix their order
  and where a refusal stops them.
- `src/snapshot/`: disk image snapshots of guests and testbed-wide snapshot archives.
- `src/packet_capture.rs`: port mirroring and capture of guest interfaces.
- `src/client.rs`, `src/docker_client.rs`: the requests and answers of the orchestration server
  and of the docker daemon.
- `src/text.rs`, `src/ip_addr.rs`: text and address helpers with exact specifications.
- `app/`: command execution and the runners written so far: the DHCP entry steps, the
  deployment steps of guests on this host, snapshot changes of a guest, the capture setup, the
  docker socket client and JSON parsing of `qemu-img` output. The network plans and the
  artefact steps (whose domain template is not here) have no runner.
- `tests/`: tests of the library on concrete values.
