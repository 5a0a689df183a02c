# Packet

Packet sends and receives files with Quick Share. This crate holds its
verified core: the decisions the desktop application makes about transfers,
devices and settings, proved with Verus against contracts over plain values.
What depends on the locale (translated words) or on the machine (the clock,
the user's folders, the system's device name) is read through trusted calls
whose results are not stated.

- `src/protocol.rs`: the messages exchanged with the Quick Share service.
- `src/utils.rs`: the transfer-time estimator, the user's folders, and how a
  time left is written out.
- `src/text.rs`: trimming and line splitting on character sequences.
- `src/objects/`: the state kept about each transfer.
- `src/widgets/`: what each dialog, card and notification shows and sends at
  each step of a transfer, as state machines from event to actions.
- `src/window.rs`: the list of nearby devices, message routing, discovery,
  the status bar and the preferences' rules.
- `src/plugins.rs`: which plugin files are copied or removed where.
- `app/`: the GTK application, the service, the desktop portals and the file
  system, which carry out what the library decides.
- `tests/`: tests of the library on concrete values.
