# imxrt-usbh

A USB host controller driver for i.MX RT 1060/1062 microcontrollers (e.g. Teensy 4.x), with its
decisions verified by Verus. The driver targets the EHCI-compatible USB OTG2 controller in host
mode and serves the `cotton-usb-host` stack.

## Layout

- `src/` is the verified library. Registers and DMA structures are plain values there, the *image*
  of the hardware; every effect is queued as an `Action`. The library decides what is written
  where and in which order, how queue heads and transfer descriptors are linked, when a transfer
  is complete and what it yields.
  - `ehci`: queue heads, transfer descriptors, frame list, and the words that they are made of
  - `ral`: images of the USB core and PHY registers
  - `gpt`: the general purpose timers of the USB core
  - `cache`: which cache lines to maintain for a range of addresses
  - `host`: the host controller; `host::laws` states what holds of it as a whole
- `app/` is the hardware layer: it loads the images, performs the actions, registers wakers, and
  implements the traits of the host stack.
- `tests/` run the library on concrete values.

## How a transfer runs

1. `start_control_transfer` or `start_bulk_transfer` builds the qTD chain and links its queue
   head into the async schedule.
2. The hardware layer registers the waker that the transfer names, carries out what `prepare`
   queues, loads the images, and calls `step`; it repeats this until the transfer is done.
3. The transfer unlinks its queue head, rings the async advance doorbell, waits for the
   acknowledgement, frees its resources, and yields its result.

A transfer that is given up before it is done (`abandon`) frees its slots. Each precondition on links and slots that were loaded from memory has a function that tests
it (`can_step`, `is_held`, `can_log_periodic_chain`, and those of `host::inspect`).

Interrupt pipes are polled with `poll_next` and given up with `release`.

## Hub support

With `hub_support`, the controller sets `PFSC`, forcing all connections to Full Speed (12 Mbps).
Without it, devices can negotiate High Speed (480 Mbps), but hubs must not be used.
