//! The devices that a server lists.
use vstd::prelude::*;

use crate::codec::{parse_pointer, parse_string, read_pointer, read_string, ArraySlot};
use crate::error::Error;
use crate::wire::agrees_deep;

verus! {

/// A scan device that a server offers.
#[derive(Debug, Clone, PartialEq, Eq)]
pub struct Device {
    pub name: String,
    pub vendor: String,
    pub model: String,
    pub kind: String,
}

pub struct DeviceView {
    pub name: Seq<char>,
    pub vendor: Seq<char>,
    pub model: Seq<char>,
    pub kind: Seq<char>,
}

impl DeepView for Device {
    type V = DeviceView;

    open spec fn deep_view(&self) -> DeviceView {
        DeviceView {
            name: self.name@,
            vendor: self.vendor@,
            model: self.model@,
            kind: self.kind@,
        }
    }
}

/// A string under the length convention that must be present.
pub open spec fn parse_required_string(s: Seq<u8>, p: int) -> Result<(Seq<char>, int), Error> {
    match parse_string(s, p) {
        Err(e) => Err(e),
        Ok((None, _)) => Err(Error::NoneError),
        Ok((Some(t), q)) => Ok((t, q)),
    }
}

/// A device: its name, vendor, model and kind, each a string that must be
/// present.
pub open spec fn parse_device(s: Seq<u8>, p: int) -> Result<(DeviceView, int), Error> {
    match parse_required_string(s, p) {
        Err(e) => Err(e),
        Ok((name, at1)) => match parse_required_string(s, at1) {
            Err(e) => Err(e),
            Ok((vendor, at2)) => match parse_required_string(s, at2) {
                Err(e) => Err(e),
                Ok((model, at3)) => match parse_required_string(s, at3) {
                    Err(e) => Err(e),
                    Ok((kind, at4)) => Ok((DeviceView { name, vendor, model, kind }, at4)),
                },
            },
        },
    }
}

fn read_required_string(s: &Vec<u8>, p: usize) -> (r: Result<(String, usize), Error>)
    ensures
        agrees_deep(r, parse_required_string(s@, p as int)),
{
    match read_string(s, p) {
        Err(e) => Err(e),
        Ok((None, _)) => Err(Error::NoneError),
        Ok((Some(t), q)) => Ok((t, q)),
    }
}

impl Device {
    pub fn try_from_stream(s: &Vec<u8>, p: usize) -> (r: Result<(Device, usize), Error>)
        ensures
            agrees_deep(r, parse_device(s@, p as int)),
    {
        let (name, at1) = match read_required_string(s, p) {
            Ok(x) => x,
            Err(e) => return Err(e),
        };
        let (vendor, at2) = match read_required_string(s, at1) {
            Ok(x) => x,
            Err(e) => return Err(e),
        };
        let (model, at3) = match read_required_string(s, at2) {
            Ok(x) => x,
            Err(e) => return Err(e),
        };
        let (kind, at4) = match read_required_string(s, at3) {
            Ok(x) => x,
            Err(e) => return Err(e),
        };
        Ok((Device { name, vendor, model, kind }, at4))
    }
}

/// Devices in arrays follow the pointer convention.
impl ArraySlot for Device {
    open spec fn parse_slot(s: Seq<u8>, p: int) -> Result<(Option<DeviceView>, int), Error> {
        match parse_pointer(s, p) {
            Err(e) => Err(e),
            Ok((false, q)) => Ok((None, q)),
            Ok((true, q)) => match parse_device(s, q) {
                Err(e) => Err(e),
                Ok((d, k)) => Ok((Some(d), k)),
            },
        }
    }

    fn read_slot(s: &Vec<u8>, p: usize) -> (r: Result<(Option<Device>, usize), Error>) {
        match read_pointer(s, p) {
            Err(e) => Err(e),
            Ok((false, q)) => Ok((None, q)),
            Ok((true, q)) => match Device::try_from_stream(s, q) {
                Err(e) => Err(e),
                Ok((d, k)) => Ok((Some(d), k)),
            },
        }
    }
}

} // verus!
