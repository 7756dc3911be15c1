use rusb::Error as LibusbError;
use vstd::prelude::*;

verus! {

/// The USB transport's error type, carried through the library unopened.
#[verifier::external_type_specification]
#[verifier::external_body]
pub struct ExUsbError(LibusbError);

/// Why an operation on the display failed.
#[derive(Debug)]
pub enum Error {
    /// The USB transport reported a failure.
    UsbError(LibusbError),
    /// No connected device carries the display's vendor and product identifiers.
    DeviceNotDetected,
    /// The display's active configuration has no interface descriptor.
    InterfaceNotDetected,
    /// The first interface has no bulk endpoint towards the device.
    MissingOutEndpoint,
    /// The first interface has no bulk endpoint towards the host.
    MissingInEndpoint,
    /// A device-string response was shorter than its two framing bytes.
    ReadFailed,
}

impl From<LibusbError> for Error {
    fn from(e: LibusbError) -> (r: Error)
        ensures
            r == Error::UsbError(e),
    {
        Error::UsbError(e)
    }
}

impl vstd::std_specs::convert::FromSpecImpl<LibusbError> for Error {
    open spec fn obeys_from_spec() -> bool {
        true
    }

    open spec fn from_spec(e: LibusbError) -> Error {
        Error::UsbError(e)
    }
}

} // verus!
