# tinyusb

USB 2.0 types and codecs (setup packets, descriptors, CDC/DFU/HID/MSC class
data), a SCSI command handler, the Mass Storage bulk-only transport engine,
a USB host enumeration engine and USB Power Delivery message types, written
in Verus with their contracts proved.

- `src/` is the verified library. The bulk-only transport (`msc_class`) and
  host enumeration (`host`) are state machines: each step takes the answer of
  the outside world and returns the next action, with an exact contract. The
  functions that ask a block device their questions state, for every call they
  make, which method was called with which block and buffer (`drive_trace`),
  and that the bytes a READ(10) sends are those the device's `read_block` left
  in the buffer.
- `app/` holds the embassy side: the MSC control handler on embassy-usb, the
  async loops that run the two state machines against real endpoints, host
  controller drivers and timers, and the `bitflags` form of `IsoAttributes`.
- `tests/` runs the library on concrete values.

Byte order conversions call `byteorder` through the wrappers in `src/codec.rs`.

The host keeps its enumerated devices in a `std::vec::Vec` bounded by
`MAX_DEVICES` (the invariant `enum_wf`), not in a `heapless::Vec`. Both ways of
keeping `heapless::Vec<AttachedDevice, MAX_DEVICES>` behind trusted items (the
outside type declared, or held in an opaque struct of the library) need a spec
function for its contents whose parameter type carries the capacity
`MAX_DEVICES`, that is a generic uninterpreted function, and those are not
accepted in this code base; so the bound is kept as an invariant of a
vstd-specified vector instead.
