# quake

The decisions behind `quake`, a tool that runs and observes Arc testnets, written in Rust and
verified with Verus.

`src/` is the verified library. It performs no I/O: each function takes what was read, queried or
done, and says what to do or to answer next.

- `cli`: the command line. Which tasks a command consists of, when it is refused, key-value
  arguments.
- `prestart`: what has to be made before a testnet can be started.
- `clean`: which data a clean-up removes, and the steps in which it does.
- `tools`, `remote`, `resources`: the tools and resources of the MCP server. What a call asks of
  the testnet, and how it is answered.
- `report`, `nodes`: tables and lists about the nodes.
- `restream`: sending a proposal out again, in the round and valid round of the request.
- `duration`, `overrun`, `text`, `error`: what the others share.

Where something takes several steps (a clean-up, a preparation, a restream, a restart of nodes),
the library has a function from the step just taken and its outcome to the next step, and laws
about whole runs. The functions whose names begin with `law_` state them.

`app/` is the program around the library: the command line, the MCP server and the driver that
reaches containers, cloud resources and nodes. It is ordinary Rust.

`tests/` runs the library on concrete values.
