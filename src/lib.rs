//! A client for the network protocol of the SANE scanner daemon: the codecs
//! of its wire format and the exchanges of a session, each proved against a
//! model of the bytes it reads and writes.
use vstd::prelude::*;

pub mod codec;
pub mod device;
pub mod error;
pub mod session;
pub mod status;
pub mod types;
pub mod wire;

pub use crate::codec::{read_array, read_string, write_string, ArraySlot, WriteToStream};
pub use crate::device::Device;
pub use crate::error::{DataFault, Error, Field};
pub use crate::session::{
    check_success_status, close_device, control_option, get_option_descriptors, init,
    open_device, request_device_list, ControlAction, OpenResult, Stream,
};
pub use crate::status::Status;
pub use crate::types::{
    Capabilities, ControlOptionResult, ControlOptionSetInfo, NoConstraint, NumericalConstraint,
    OptionConstraint, OptionDescriptor, OptionUnit, OptionValue, OptionValueType, Pointer, Range,
    StringListConstraint,
};

verus! {

} // verus!
