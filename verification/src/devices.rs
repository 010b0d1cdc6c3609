use vstd::prelude::*;

use crate::shared::{is_blank, is_blank_text};

verus! {

/// Identifier of a scanning device.
#[derive(Debug, Clone, Copy, PartialEq, Eq, Hash, Structural)]
pub struct DeviceId {
    pub value: u128,
}

impl DeviceId {
    pub fn from_u128(value: u128) -> (r: Self)
        ensures
            r.value == value,
    {
        DeviceId { value }
    }

    pub fn as_u128(&self) -> (r: u128)
        ensures
            r == self.value,
    {
        self.value
    }
}

/// The given device name was blank.
#[derive(Debug, Clone, Copy, PartialEq, Eq, Structural)]
pub enum DeviceNameError {
    Blank,
}

/// The name of a device: any text that is not blank.
#[derive(Debug, Clone, PartialEq, Eq)]
pub struct DeviceName {
    pub value: String,
}

impl DeviceName {
    pub fn parse(value: &str) -> (r: Result<Self, DeviceNameError>)
        ensures
            is_blank_text(value@) ==> r == Err::<Self, DeviceNameError>(DeviceNameError::Blank),
            !is_blank_text(value@) ==> r is Ok && r->Ok_0.value@ == value@,
    {
        if is_blank(value) {
            Err(DeviceNameError::Blank)
        } else {
            Ok(DeviceName { value: value.to_owned() })
        }
    }

    pub fn as_str(&self) -> (r: &str)
        ensures
            r@ == self.value@,
    {
        self.value.as_str()
    }
}

} // verus!
