# mtp_rs

A Media Transfer Protocol (MTP/PTP) library whose protocol logic is written
in Verus and proved against its contracts.

- `src/ptp`: protocol codes, little-endian packing, MTP strings and dates,
  USB containers, the device/storage/object/property datasets, the decisions
  of a PTP session and the reassembly of data phases (`receive`).
- `src/mtp`: device events, device descriptions, the storage listing rules
  with their device quirks, new folders, and download chunking.
- `src/transport`: MTP interface detection, endpoint discovery, transfer
  alignment, the mapping of transfer failures, the physical location of a
  device, and a virtual device's configuration and the objects and events
  that out-of-band changes to its directory make.
- `app/`: the USB transport over nusb, the asynchronous session, device and
  storage API; its protocol decisions are calls into the library (an upload
  with progress counts the bytes it streams by itself).
- `tests/`: the library's tests.

Every parser states exactly when it refuses its input and the message of the
error it returns.
