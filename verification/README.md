# Dragonfly

Bare-metal provisioning: a server that takes up machines as they boot from the network, installs
operating systems on them through Tinkerbell, keeps up with the machines of Proxmox clusters, and
hands over to a cluster of its own; and the agent that runs on the machines.

* `src/` is the library: the rules behind server and agent, written in Verus. Each function states
  what it returns or changes, over mathematical values, and is proved to do so. What goes on between
  the program and the outside world (requests, files, programs that are run) is written as state
  machines that say what is to be done next and are told how it went.
* `tests/` runs the library on concrete values.
* `app/` is the program around the library: command line, HTTP, database, cluster and host.

Calls into other crates stand behind small functions whose contracts are taken on trust. Each says
in its comment which function it calls and what it takes for granted of it.
