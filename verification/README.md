# arm_ffa

Types and register encoding of the Arm Firmware Framework for A-profile (FF-A), written in Verus.

- `src/` is the verified library: function IDs, error codes, versions and the other argument
  types with their conversions; the `Interface` enum with `function_id`, `from_regs` (parse
  `x0`..`x17`) and `to_regs` (write them); the console log packing (`parse_console_log`) and a
  line-buffered `Console` that sends its text through a `CallFfa` implementation.
  `roundtrip.rs` proves that `from_regs` reads back what `to_regs` writes. `console.rs` keeps a
  ghost record of the interfaces and versions the console hands to its `CallFfa`
  implementation and of the replies. It proves that every call is made at the console's
  version, that the console succeeds exactly when every call succeeds and returns the
  failing call's error otherwise, and, when writing succeeds, that the recorded messages carry
  exactly the text written (with what is left in the buffer). What the `CallFfa` implementation
  does with a call is not part of any contract.
- `app/` holds what needs the machine or global state: the `smc #0` conduit (`call_ffa`), the
  global console with `initialize`, `with_console` and the `print!`/`println!` macros, and copies
  of the error types that carry `thiserror` messages.
- `tests/` exercises the library on concrete values.
