# nusb (WebUSB and IOKit logic, verified)

The decisions of the WebUSB back end of a USB host library, and the IOKit
transfer status mapping, written in Verus with their contracts proved.

- `src/transfer.rs`: transfer errors, WebUSB transfer status, control SETUP
  packets, and the per-endpoint transfer state (`TransferData`): what a bulk
  transfer is started with and what a completed transfer hands back.
- `src/iokit.rs`: IOKit `IOReturn` codes and their mapping to transfer results.
- `src/descriptors.rs`: GET_DESCRIPTOR requests, configuration descriptor
  validation, the configuration descriptor reader, string descriptor decoding.
- `src/enumeration.rs`: device and interface records built from what WebUSB
  reports; bus listing.
- `src/device.rs`: device identifiers, matching an enumeration record to a
  device, choice of the global scope that provides WebUSB.
- `src/hotplug.rs`: the hotplug watch, which never reports an event.
- `app/`: the browser side: WebUSB calls, awaits, and conversions between
  JavaScript objects and the library's records.
