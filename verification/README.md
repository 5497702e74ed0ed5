# displays-mqtt-bridge

Controls DDC/CI-capable monitors through MQTT: it lists the detected displays, publishes
selected VCP feature values as retained messages, and sets the brightness of one display or
all of them on command.

The library under `src/` is verified with Verus:

- `protocol` – commands, display targets and the status, command-result and publication
  documents.
- `control` – the display controller: status listing, identity documents, the retained
  feature messages of a scan, and the brightness job that drives one DDC/CI operation at a
  time.
- `bridge` – the service's decisions: what a command, a connection, a finished scan or a
  timer tick leads to, with at most one scan running at a time.
- `config` – configuration defaults, validation and the MQTT connection settings.
- `mqtt` – topic naming below the configured root.
- `text` – decimal and hexadecimal rendering, slash trimming and other string helpers.

`app/` is the program around it: command-line arguments, reading the YAML file, the MQTT
event loop, JSON encoding, and the DDC/CI calls on real hardware.
