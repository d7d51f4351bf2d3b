# SimpleBluetooth

A viewer for the state of Bluetooth on a Windows PC: paired devices, low-energy advertisements
nearby, and a search for Classic devices.

- `src/` is the verified library. It holds the state of the screen and how events change it
  (`ui`, `devices`, `nearby`, `found`), how readings of the system become events (`bt`,
  `advertisement`, `inquiry`), the course of the Bluetooth thread (`supervisor`), and the words,
  numbers and orders that are shown (`labels`, `address`, `text`, `order`, `theme`, `config`, `fonts`).
  `laws` states what holds of the screen whatever happens.
- `app/` is the program: the window, the settings file, and the calls into Windows.
- `tests/` holds the tests of the library.

A signal strength is the last one that Windows recorded, not a measurement in real time. The
strength of a Classic device may be relative, which is why such devices are hidden unless asked
for, and why they are never ordered by it.
