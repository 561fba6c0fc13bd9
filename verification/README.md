# pamusb

Authentication with a USB device, as a PAM module and two command line
tools. A user is authenticated when a partition listed for them in the
configuration is present and the key file on it equals the key file kept
on the system; both keys are then replaced by one fresh random key.

- `src/` is the verified library (Verus): keys and their comparison, the
  configuration, the search for a configured partition, the authentication
  attempt as a state machine (`usb_check`), command line reading, PAM
  return codes and the decisions of the PAM module, and the rules the
  system-call wrappers apply.
- `app/` is ordinary Rust around it: the privileged checker's `main`, file
  access, mounting, udev, `getrandom`, process spawning, logging and the
  PAM entry points. It performs each action the library asks for and
  hands back the outcome.
- `tests/` exercises the library.
