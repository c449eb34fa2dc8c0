# roam

Wi-Fi and VPN in the terminal, straight to NetworkManager over the system bus.
The networks in the air, the ones you have used, and what you are on now;
`roam --watch` stays in the background and leaves a metered network when a
better saved one comes into range.

## Layout

`src/` is the library, and Verus proves all of it against the contracts it
states.

| Module | Holds |
|---|---|
| `reading` | what is read from NetworkManager, as plain values |
| `air`, `order`, `nm` | the networks and VPNs in order, and what to ask for |
| `bus` | what is asked, where on the bus it goes, what comes back |
| `roam`, `roam_laws` | the list, one step per event, and what holds of it |
| `screen`, `screen_laws` | the screen as one text, and what holds of it |
| `cells`, `width`, `term` | text cut and padded by cells, and how wide text is |
| `watch`, `better` | `~/.roamrc`, captive portals, networks worth switching to |
| `watcher`, `watcher_laws` | the watcher, one step per event, and what holds of it |
| `text` | small questions about text |

`app/` is the program around it: it reads the bus, the keys and the files, does
what the library says to do next, and hands back what came of it. `tests/` runs
the library on concrete values.

## What is believed

The library calls `crust` for the width of a text and for the control sequences
of the terminal, `zbus` for the text of an error, and a few functions of the
standard library that have no contract of their own. Each such call has one
item, in `term`, `bus` or `text`, whose comment says what is believed of it.
Everything else is proved.
