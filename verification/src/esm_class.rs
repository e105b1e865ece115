//! The `esm_class` values this implementation uses, SMPP v3.4 specification,
//! section 5.2.12: a message mode in the low two bits and a message type in
//! the middle four.

use vstd::prelude::*;

verus! {

/// The `esm_class` of an inbound `deliver_sm`.
#[derive(Debug, PartialEq, Eq, Structural, Clone, Copy)]
pub enum DeliverEsmClass {
    /// An ordinary mobile-originated message.
    Default,
    /// A delivery receipt generated by the message centre.
    SmscDeliveryReceipt,
}

impl DeliverEsmClass {
    /// The wire value: the receipt bit sits in the message-type field.
    pub fn value(&self) -> (r: u8)
        ensures
            *self is Default ==> r == 0x00,
            *self is SmscDeliveryReceipt ==> r == 0x04,
    {
        match self {
            DeliverEsmClass::Default => 0x00,
            DeliverEsmClass::SmscDeliveryReceipt => 0x04,
        }
    }
}

/// The `esm_class` of an outbound `submit_sm`.
#[derive(Debug, PartialEq, Eq, Structural, Clone, Copy)]
pub enum SubmitEsmClass {
    /// An ordinary submission.
    Default,
}

impl SubmitEsmClass {
    /// The wire value.
    pub fn value(&self) -> (r: u8)
        ensures
            r == 0x00,
    {
        0x00
    }
}

} // verus!
