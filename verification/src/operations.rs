//! The supported operations: thin typed wrappers over the shared body
//! codecs, one per command id.

use vstd::prelude::*;
use vstd::string::StringSliceAdditionalSpecFns;

use crate::bind_data::{spec_new_bind_data, spec_read_bind_data, BindData, BindDataV};
use crate::formats::coctet_bytes_ok;
use crate::pduparseerror::{ErrBodyV, ErrV, PduParseError, PduParseErrorBody};
use crate::render::{ascii_bytes_to_string, chars_of_bytes};
use crate::resp_data::{
    resp_wf, resp_wire, spec_read_resp_data, RespData, MAX_LENGTH_MESSAGE_ID,
    MAX_LENGTH_RESP_SYSTEM_ID,
};
use crate::sm_data::{spec_read_sm_data, SmData, SmDataV};

verus! {

/// A `bind_transmitter` request.
#[derive(Debug, PartialEq, Clone)]
pub struct BindTransmitterPdu {
    pub bind_data: BindData,
}

/// A `bind_receiver` request.
#[derive(Debug, PartialEq, Clone)]
pub struct BindReceiverPdu {
    pub bind_data: BindData,
}

/// A `bind_transceiver` request.
#[derive(Debug, PartialEq, Clone)]
pub struct BindTransceiverPdu {
    pub bind_data: BindData,
}

impl View for BindTransmitterPdu {
    type V = BindDataV;

    open spec fn view(&self) -> BindDataV {
        self.bind_data@
    }
}

impl View for BindReceiverPdu {
    type V = BindDataV;

    open spec fn view(&self) -> BindDataV {
        self.bind_data@
    }
}

impl View for BindTransceiverPdu {
    type V = BindDataV;

    open spec fn view(&self) -> BindDataV {
        self.bind_data@
    }
}

impl BindTransmitterPdu {
    /// Build from field values, validating each.
    pub fn new(
        system_id: &str,
        password: &str,
        system_type: &str,
        interface_version: u8,
        addr_ton: u8,
        addr_npi: u8,
        address_range: &str,
    ) -> (r: Result<BindTransmitterPdu, PduParseError>)
        ensures
            ({
                let sr = spec_new_bind_data(
                    system_id.spec_bytes(),
                    password.spec_bytes(),
                    system_type.spec_bytes(),
                    interface_version,
                    addr_ton,
                    addr_npi,
                    address_range.spec_bytes(),
                );
                match r {
                    Ok(v) => sr matches Ok(w) && v@ == w && v@.wf(),
                    Err(e) => sr matches Err(e2) && e@ == e2,
                }
            }),
    {
        let bind_data = BindData::new(
            system_id,
            password,
            system_type,
            interface_version,
            addr_ton,
            addr_npi,
            address_range,
        )?;
        Ok(BindTransmitterPdu { bind_data })
    }

    /// The request's fields, as the bind handler reads them.
    pub fn bind_data(&self) -> (r: &BindData)
        ensures
            r@ == self@,
    {
        &self.bind_data
    }

    /// Parse this operation's body from `[pos, end)` of `bytes`.
    pub fn parse(bytes: &[u8], pos: usize, end: usize) -> (r: Result<
        (BindTransmitterPdu, usize),
        PduParseError,
    >)
        requires
            pos <= end <= bytes@.len(),
        ensures
            ({
                let sr = spec_read_bind_data(bytes@, pos as int, end as int);
                match r {
                    Ok((v, n)) => sr matches Ok((w, n2)) && v@ == w && n == n2 && v@.wf() && pos
                        <= n <= end,
                    Err(e) => sr matches Err(e2) && e@ == e2,
                }
            }),
    {
        let (bind_data, n) = BindData::parse(bytes, pos, end)?;
        Ok((BindTransmitterPdu { bind_data }, n))
    }

    /// Append this body's wire bytes.
    pub fn write(&self, buf: &mut Vec<u8>)
        ensures
            final(buf)@ == old(buf)@ + self@.wire(),
    {
        self.bind_data.write(buf);
    }
}

impl BindReceiverPdu {
    /// Build from field values, validating each.
    pub fn new(
        system_id: &str,
        password: &str,
        system_type: &str,
        interface_version: u8,
        addr_ton: u8,
        addr_npi: u8,
        address_range: &str,
    ) -> (r: Result<BindReceiverPdu, PduParseError>)
        ensures
            ({
                let sr = spec_new_bind_data(
                    system_id.spec_bytes(),
                    password.spec_bytes(),
                    system_type.spec_bytes(),
                    interface_version,
                    addr_ton,
                    addr_npi,
                    address_range.spec_bytes(),
                );
                match r {
                    Ok(v) => sr matches Ok(w) && v@ == w && v@.wf(),
                    Err(e) => sr matches Err(e2) && e@ == e2,
                }
            }),
    {
        let bind_data = BindData::new(
            system_id,
            password,
            system_type,
            interface_version,
            addr_ton,
            addr_npi,
            address_range,
        )?;
        Ok(BindReceiverPdu { bind_data })
    }

    /// The request's fields, as the bind handler reads them.
    pub fn bind_data(&self) -> (r: &BindData)
        ensures
            r@ == self@,
    {
        &self.bind_data
    }

    /// Parse this operation's body from `[pos, end)` of `bytes`.
    pub fn parse(bytes: &[u8], pos: usize, end: usize) -> (r: Result<
        (BindReceiverPdu, usize),
        PduParseError,
    >)
        requires
            pos <= end <= bytes@.len(),
        ensures
            ({
                let sr = spec_read_bind_data(bytes@, pos as int, end as int);
                match r {
                    Ok((v, n)) => sr matches Ok((w, n2)) && v@ == w && n == n2 && v@.wf() && pos
                        <= n <= end,
                    Err(e) => sr matches Err(e2) && e@ == e2,
                }
            }),
    {
        let (bind_data, n) = BindData::parse(bytes, pos, end)?;
        Ok((BindReceiverPdu { bind_data }, n))
    }

    /// Append this body's wire bytes.
    pub fn write(&self, buf: &mut Vec<u8>)
        ensures
            final(buf)@ == old(buf)@ + self@.wire(),
    {
        self.bind_data.write(buf);
    }
}

impl BindTransceiverPdu {
    /// Build from field values, validating each.
    pub fn new(
        system_id: &str,
        password: &str,
        system_type: &str,
        interface_version: u8,
        addr_ton: u8,
        addr_npi: u8,
        address_range: &str,
    ) -> (r: Result<BindTransceiverPdu, PduParseError>)
        ensures
            ({
                let sr = spec_new_bind_data(
                    system_id.spec_bytes(),
                    password.spec_bytes(),
                    system_type.spec_bytes(),
                    interface_version,
                    addr_ton,
                    addr_npi,
                    address_range.spec_bytes(),
                );
                match r {
                    Ok(v) => sr matches Ok(w) && v@ == w && v@.wf(),
                    Err(e) => sr matches Err(e2) && e@ == e2,
                }
            }),
    {
        let bind_data = BindData::new(
            system_id,
            password,
            system_type,
            interface_version,
            addr_ton,
            addr_npi,
            address_range,
        )?;
        Ok(BindTransceiverPdu { bind_data })
    }

    /// The request's fields, as the bind handler reads them.
    pub fn bind_data(&self) -> (r: &BindData)
        ensures
            r@ == self@,
    {
        &self.bind_data
    }

    /// Parse this operation's body from `[pos, end)` of `bytes`.
    pub fn parse(bytes: &[u8], pos: usize, end: usize) -> (r: Result<
        (BindTransceiverPdu, usize),
        PduParseError,
    >)
        requires
            pos <= end <= bytes@.len(),
        ensures
            ({
                let sr = spec_read_bind_data(bytes@, pos as int, end as int);
                match r {
                    Ok((v, n)) => sr matches Ok((w, n2)) && v@ == w && n == n2 && v@.wf() && pos
                        <= n <= end,
                    Err(e) => sr matches Err(e2) && e@ == e2,
                }
            }),
    {
        let (bind_data, n) = BindData::parse(bytes, pos, end)?;
        Ok((BindTransceiverPdu { bind_data }, n))
    }

    /// Append this body's wire bytes.
    pub fn write(&self, buf: &mut Vec<u8>)
        ensures
            final(buf)@ == old(buf)@ + self@.wire(),
    {
        self.bind_data.write(buf);
    }
}

/// A `bind_transmitter_resp`.
#[derive(Debug, PartialEq, Clone)]
pub struct BindTransmitterRespPdu {
    pub data: RespData,
}

/// A `bind_receiver_resp`.
#[derive(Debug, PartialEq, Clone)]
pub struct BindReceiverRespPdu {
    pub data: RespData,
}

/// A `bind_transceiver_resp`.
#[derive(Debug, PartialEq, Clone)]
pub struct BindTransceiverRespPdu {
    pub data: RespData,
}

impl View for BindTransmitterRespPdu {
    type V = Option<Seq<u8>>;

    open spec fn view(&self) -> Option<Seq<u8>> {
        self.data@
    }
}

impl View for BindReceiverRespPdu {
    type V = Option<Seq<u8>>;

    open spec fn view(&self) -> Option<Seq<u8>> {
        self.data@
    }
}

impl View for BindTransceiverRespPdu {
    type V = Option<Seq<u8>>;

    open spec fn view(&self) -> Option<Seq<u8>> {
        self.data@
    }
}

impl BindTransmitterRespPdu {
    /// A success response carrying the server's `system_id`.
    pub fn new(system_id: &str) -> (r: Result<BindTransmitterRespPdu, PduParseError>)
        ensures
            ({
                let sr = crate::formats::spec_co_from_str(
                    system_id.spec_bytes(),
                    MAX_LENGTH_RESP_SYSTEM_ID as int,
                    "system_id"@,
                );
                match r {
                    Ok(v) => sr matches Ok(s) && v@ == Some(s) && resp_wf(
                        v@,
                        MAX_LENGTH_RESP_SYSTEM_ID as int,
                    ),
                    Err(e) => sr matches Err(e2) && e@ == e2,
                }
            }),
    {
        let data = RespData::new(system_id, MAX_LENGTH_RESP_SYSTEM_ID, "system_id")?;
        Ok(BindTransmitterRespPdu { data })
    }

    /// A header-only error response.
    pub fn new_error() -> (r: BindTransmitterRespPdu)
        ensures
            r@ is None,
    {
        BindTransmitterRespPdu { data: RespData::new_error() }
    }

    /// Parse this operation's body from `[pos, end)` of `bytes`.
    pub fn parse(bytes: &[u8], pos: usize, end: usize, command_status: u32) -> (r: Result<
        (BindTransmitterRespPdu, usize),
        PduParseError,
    >)
        requires
            pos <= end <= bytes@.len(),
        ensures
            ({
                let sr = spec_read_resp_data(
                    bytes@,
                    pos as int,
                    end as int,
                    command_status,
                    MAX_LENGTH_RESP_SYSTEM_ID as int,
                    "system_id"@,
                );
                match r {
                    Ok((v, n)) => sr matches Ok((w, n2)) && v@ == w && n == n2 && resp_wf(
                        v@,
                        MAX_LENGTH_RESP_SYSTEM_ID as int,
                    ) && pos <= n <= end,
                    Err(e) => sr matches Err(e2) && e@ == e2,
                }
            }),
    {
        let (data, n) = RespData::parse(
            bytes,
            pos,
            end,
            command_status,
            MAX_LENGTH_RESP_SYSTEM_ID,
            "system_id",
        )?;
        Ok((BindTransmitterRespPdu { data }, n))
    }

    /// Append this body's wire bytes.
    pub fn write(&self, buf: &mut Vec<u8>)
        ensures
            final(buf)@ == old(buf)@ + resp_wire(self@),
    {
        self.data.write(buf);
    }
}

impl BindReceiverRespPdu {
    /// A success response carrying the server's `system_id`.
    pub fn new(system_id: &str) -> (r: Result<BindReceiverRespPdu, PduParseError>)
        ensures
            ({
                let sr = crate::formats::spec_co_from_str(
                    system_id.spec_bytes(),
                    MAX_LENGTH_RESP_SYSTEM_ID as int,
                    "system_id"@,
                );
                match r {
                    Ok(v) => sr matches Ok(s) && v@ == Some(s) && resp_wf(
                        v@,
                        MAX_LENGTH_RESP_SYSTEM_ID as int,
                    ),
                    Err(e) => sr matches Err(e2) && e@ == e2,
                }
            }),
    {
        let data = RespData::new(system_id, MAX_LENGTH_RESP_SYSTEM_ID, "system_id")?;
        Ok(BindReceiverRespPdu { data })
    }

    /// A header-only error response.
    pub fn new_error() -> (r: BindReceiverRespPdu)
        ensures
            r@ is None,
    {
        BindReceiverRespPdu { data: RespData::new_error() }
    }

    /// Parse this operation's body from `[pos, end)` of `bytes`.
    pub fn parse(bytes: &[u8], pos: usize, end: usize, command_status: u32) -> (r: Result<
        (BindReceiverRespPdu, usize),
        PduParseError,
    >)
        requires
            pos <= end <= bytes@.len(),
        ensures
            ({
                let sr = spec_read_resp_data(
                    bytes@,
                    pos as int,
                    end as int,
                    command_status,
                    MAX_LENGTH_RESP_SYSTEM_ID as int,
                    "system_id"@,
                );
                match r {
                    Ok((v, n)) => sr matches Ok((w, n2)) && v@ == w && n == n2 && resp_wf(
                        v@,
                        MAX_LENGTH_RESP_SYSTEM_ID as int,
                    ) && pos <= n <= end,
                    Err(e) => sr matches Err(e2) && e@ == e2,
                }
            }),
    {
        let (data, n) = RespData::parse(
            bytes,
            pos,
            end,
            command_status,
            MAX_LENGTH_RESP_SYSTEM_ID,
            "system_id",
        )?;
        Ok((BindReceiverRespPdu { data }, n))
    }

    /// Append this body's wire bytes.
    pub fn write(&self, buf: &mut Vec<u8>)
        ensures
            final(buf)@ == old(buf)@ + resp_wire(self@),
    {
        self.data.write(buf);
    }
}

impl BindTransceiverRespPdu {
    /// A success response carrying the server's `system_id`.
    pub fn new(system_id: &str) -> (r: Result<BindTransceiverRespPdu, PduParseError>)
        ensures
            ({
                let sr = crate::formats::spec_co_from_str(
                    system_id.spec_bytes(),
                    MAX_LENGTH_RESP_SYSTEM_ID as int,
                    "system_id"@,
                );
                match r {
                    Ok(v) => sr matches Ok(s) && v@ == Some(s) && resp_wf(
                        v@,
                        MAX_LENGTH_RESP_SYSTEM_ID as int,
                    ),
                    Err(e) => sr matches Err(e2) && e@ == e2,
                }
            }),
    {
        let data = RespData::new(system_id, MAX_LENGTH_RESP_SYSTEM_ID, "system_id")?;
        Ok(BindTransceiverRespPdu { data })
    }

    /// A header-only error response.
    pub fn new_error() -> (r: BindTransceiverRespPdu)
        ensures
            r@ is None,
    {
        BindTransceiverRespPdu { data: RespData::new_error() }
    }

    /// Parse this operation's body from `[pos, end)` of `bytes`.
    pub fn parse(bytes: &[u8], pos: usize, end: usize, command_status: u32) -> (r: Result<
        (BindTransceiverRespPdu, usize),
        PduParseError,
    >)
        requires
            pos <= end <= bytes@.len(),
        ensures
            ({
                let sr = spec_read_resp_data(
                    bytes@,
                    pos as int,
                    end as int,
                    command_status,
                    MAX_LENGTH_RESP_SYSTEM_ID as int,
                    "system_id"@,
                );
                match r {
                    Ok((v, n)) => sr matches Ok((w, n2)) && v@ == w && n == n2 && resp_wf(
                        v@,
                        MAX_LENGTH_RESP_SYSTEM_ID as int,
                    ) && pos <= n <= end,
                    Err(e) => sr matches Err(e2) && e@ == e2,
                }
            }),
    {
        let (data, n) = RespData::parse(
            bytes,
            pos,
            end,
            command_status,
            MAX_LENGTH_RESP_SYSTEM_ID,
            "system_id",
        )?;
        Ok((BindTransceiverRespPdu { data }, n))
    }

    /// Append this body's wire bytes.
    pub fn write(&self, buf: &mut Vec<u8>)
        ensures
            final(buf)@ == old(buf)@ + resp_wire(self@),
    {
        self.data.write(buf);
    }
}

/// A `submit_sm` request.
#[derive(Debug, PartialEq, Clone)]
pub struct SubmitSmPdu {
    pub sm_data: SmData,
}

/// A `deliver_sm` operation.
#[derive(Debug, PartialEq, Clone)]
pub struct DeliverSmPdu {
    pub sm_data: SmData,
}

impl View for SubmitSmPdu {
    type V = SmDataV;

    open spec fn view(&self) -> SmDataV {
        self.sm_data@
    }
}

impl View for DeliverSmPdu {
    type V = SmDataV;

    open spec fn view(&self) -> SmDataV {
        self.sm_data@
    }
}

impl SubmitSmPdu {
    /// Build from field values, validating each.
    pub fn new(
        service_type: &str,
        source_addr_ton: u8,
        source_addr_npi: u8,
        source_addr: &str,
        dest_addr_ton: u8,
        dest_addr_npi: u8,
        destination_addr: &str,
        esm_class: u8,
        protocol_id: u8,
        priority_flag: u8,
        schedule_delivery_time: &str,
        validity_period: &str,
        registered_delivery: u8,
        replace_if_present_flag: u8,
        data_coding: u8,
        sm_default_msg_id: u8,
        short_message: &[u8],
    ) -> (r: Result<SubmitSmPdu, PduParseError>)
        ensures
            ({
                let sr = crate::sm_data::spec_new_sm_data(
                    service_type.spec_bytes(),
                    source_addr_ton,
                    source_addr_npi,
                    source_addr.spec_bytes(),
                    dest_addr_ton,
                    dest_addr_npi,
                    destination_addr.spec_bytes(),
                    esm_class,
                    protocol_id,
                    priority_flag,
                    schedule_delivery_time.spec_bytes(),
                    validity_period.spec_bytes(),
                    registered_delivery,
                    replace_if_present_flag,
                    data_coding,
                    sm_default_msg_id,
                    short_message@,
                );
                match r {
                    Ok(v) => sr matches Ok(w) && v@ == w && v@.wf(),
                    Err(e) => sr matches Err(e2) && e@ == e2,
                }
            }),
    {
        let sm_data = SmData::new(
            service_type,
            source_addr_ton,
            source_addr_npi,
            source_addr,
            dest_addr_ton,
            dest_addr_npi,
            destination_addr,
            esm_class,
            protocol_id,
            priority_flag,
            schedule_delivery_time,
            validity_period,
            registered_delivery,
            replace_if_present_flag,
            data_coding,
            sm_default_msg_id,
            short_message,
        )?;
        Ok(SubmitSmPdu { sm_data })
    }

    /// Parse this operation's body from `[pos, end)` of `bytes`.
    pub fn parse(bytes: &[u8], pos: usize, end: usize) -> (r: Result<
        (SubmitSmPdu, usize),
        PduParseError,
    >)
        requires
            pos <= end <= bytes@.len(),
        ensures
            ({
                let sr = spec_read_sm_data(bytes@, pos as int, end as int);
                match r {
                    Ok((v, n)) => sr matches Ok((w, n2)) && v@ == w && n == n2 && v@.wf() && pos
                        <= n <= end,
                    Err(e) => sr matches Err(e2) && e@ == e2,
                }
            }),
    {
        let (sm_data, n) = SmData::parse(bytes, pos, end)?;
        Ok((SubmitSmPdu { sm_data }, n))
    }

    /// Append this body's wire bytes.
    pub fn write(&self, buf: &mut Vec<u8>)
        requires
            self@.short_message.len() <= crate::sm_data::MAX_LENGTH_SHORT_MESSAGE,
        ensures
            final(buf)@ == old(buf)@ + self@.wire(),
    {
        self.sm_data.write(buf);
    }

    /// The submitter's address, as the router records it.
    pub fn source_addr(&self) -> (r: String)
        requires
            coctet_bytes_ok(self@.source_addr),
        ensures
            r@ == chars_of_bytes(self@.source_addr),
    {
        ascii_bytes_to_string(self.sm_data.source_addr.value.as_slice())
    }
}

/// The candidate message id carried at the front of a `deliver_sm`
/// short message: the bytes after an ASCII `id:` prefix, usable when
/// they decode as UTF-8 text.
pub open spec fn spec_extract_receipted_message_id(sm: Seq<u8>) -> Option<Seq<char>> {
    if sm.len() >= 3 && sm[0] == 'i' as u8 && sm[1] == 'd' as u8 && sm[2] == ':' as u8 {
        let rest = sm.subrange(3, sm.len() as int);
        if vstd::utf8::valid_utf8(rest) {
            Some(vstd::utf8::decode_utf8(rest))
        } else {
            None
        }
    } else {
        None
    }
}

impl DeliverSmPdu {
    /// Build from field values, validating each.
    pub fn new(
        service_type: &str,
        source_addr_ton: u8,
        source_addr_npi: u8,
        source_addr: &str,
        dest_addr_ton: u8,
        dest_addr_npi: u8,
        destination_addr: &str,
        esm_class: u8,
        protocol_id: u8,
        priority_flag: u8,
        schedule_delivery_time: &str,
        validity_period: &str,
        registered_delivery: u8,
        replace_if_present_flag: u8,
        data_coding: u8,
        sm_default_msg_id: u8,
        short_message: &[u8],
    ) -> (r: Result<DeliverSmPdu, PduParseError>)
        ensures
            ({
                let sr = crate::sm_data::spec_new_sm_data(
                    service_type.spec_bytes(),
                    source_addr_ton,
                    source_addr_npi,
                    source_addr.spec_bytes(),
                    dest_addr_ton,
                    dest_addr_npi,
                    destination_addr.spec_bytes(),
                    esm_class,
                    protocol_id,
                    priority_flag,
                    schedule_delivery_time.spec_bytes(),
                    validity_period.spec_bytes(),
                    registered_delivery,
                    replace_if_present_flag,
                    data_coding,
                    sm_default_msg_id,
                    short_message@,
                );
                match r {
                    Ok(v) => sr matches Ok(w) && v@ == w && v@.wf(),
                    Err(e) => sr matches Err(e2) && e@ == e2,
                }
            }),
    {
        let sm_data = SmData::new(
            service_type,
            source_addr_ton,
            source_addr_npi,
            source_addr,
            dest_addr_ton,
            dest_addr_npi,
            destination_addr,
            esm_class,
            protocol_id,
            priority_flag,
            schedule_delivery_time,
            validity_period,
            registered_delivery,
            replace_if_present_flag,
            data_coding,
            sm_default_msg_id,
            short_message,
        )?;
        Ok(DeliverSmPdu { sm_data })
    }

    /// Parse this operation's body from `[pos, end)` of `bytes`.
    pub fn parse(bytes: &[u8], pos: usize, end: usize) -> (r: Result<
        (DeliverSmPdu, usize),
        PduParseError,
    >)
        requires
            pos <= end <= bytes@.len(),
        ensures
            ({
                let sr = spec_read_sm_data(bytes@, pos as int, end as int);
                match r {
                    Ok((v, n)) => sr matches Ok((w, n2)) && v@ == w && n == n2 && v@.wf() && pos
                        <= n <= end,
                    Err(e) => sr matches Err(e2) && e@ == e2,
                }
            }),
    {
        let (sm_data, n) = SmData::parse(bytes, pos, end)?;
        Ok((DeliverSmPdu { sm_data }, n))
    }

    /// Append this body's wire bytes.
    pub fn write(&self, buf: &mut Vec<u8>)
        requires
            self@.short_message.len() <= crate::sm_data::MAX_LENGTH_SHORT_MESSAGE,
        ensures
            final(buf)@ == old(buf)@ + self@.wire(),
    {
        self.sm_data.write(buf);
    }

    /// An operation is acceptable under a status exactly when the
    /// status is zero: a `deliver_sm` is a request.
    pub fn validate_command_status(self, command_status: u32) -> (r: Result<
        DeliverSmPdu,
        PduParseError,
    >)
        ensures
            match r {
                Ok(v) => command_status == 0 && v == self,
                Err(e) => command_status != 0 && e@ == ErrV::plain(
                    ErrBodyV::StatusIsNotZero(command_status),
                ),
            },
    {
        if command_status == 0 {
            Ok(self)
        } else {
            Err(PduParseError::new(PduParseErrorBody::StatusIsNotZero(command_status)))
        }
    }

    /// The candidate message id at the front of the short message.
    pub fn extract_receipted_message_id(&self) -> (r: Option<String>)
        ensures
            match r {
                Some(s) => spec_extract_receipted_message_id(self@.short_message) == Some(s@),
                None => spec_extract_receipted_message_id(self@.short_message) is None,
            },
    {
        let sm = &self.sm_data.short_message.value;
        let n = sm.len();
        if n < 3 {
            return None;
        }
        if !(sm[0] == 'i' as u8 && sm[1] == 'd' as u8 && sm[2] == ':' as u8) {
            return None;
        }
        let rest = vstd::slice::slice_subrange(sm.as_slice(), 3, n);
        proof {
            assert(rest@ =~= self@.short_message.subrange(3, self@.short_message.len() as int));
        }
        crate::render::utf8_bytes_to_string(rest)
    }

    /// The originating address, as the router reads it.
    pub fn source_addr(&self) -> (r: String)
        requires
            coctet_bytes_ok(self@.source_addr),
        ensures
            r@ == chars_of_bytes(self@.source_addr),
    {
        ascii_bytes_to_string(self.sm_data.source_addr.value.as_slice())
    }
}

/// A `submit_sm_resp`.
#[derive(Debug, PartialEq, Clone)]
pub struct SubmitSmRespPdu {
    pub data: RespData,
}

/// A `deliver_sm_resp`.
#[derive(Debug, PartialEq, Clone)]
pub struct DeliverSmRespPdu {
    pub data: RespData,
}

impl View for SubmitSmRespPdu {
    type V = Option<Seq<u8>>;

    open spec fn view(&self) -> Option<Seq<u8>> {
        self.data@
    }
}

impl View for DeliverSmRespPdu {
    type V = Option<Seq<u8>>;

    open spec fn view(&self) -> Option<Seq<u8>> {
        self.data@
    }
}

impl SubmitSmRespPdu {
    /// A success response carrying the accepted `message_id`.
    pub fn new_ok(message_id: &str) -> (r: Result<SubmitSmRespPdu, PduParseError>)
        ensures
            ({
                let sr = crate::formats::spec_co_from_str(
                    message_id.spec_bytes(),
                    MAX_LENGTH_MESSAGE_ID as int,
                    "message_id"@,
                );
                match r {
                    Ok(v) => sr matches Ok(s) && v@ == Some(s) && resp_wf(
                        v@,
                        MAX_LENGTH_MESSAGE_ID as int,
                    ),
                    Err(e) => sr matches Err(e2) && e@ == e2,
                }
            }),
    {
        let data = RespData::new(message_id, MAX_LENGTH_MESSAGE_ID, "message_id")?;
        Ok(SubmitSmRespPdu { data })
    }

    /// A header-only error response.
    pub fn new_error() -> (r: SubmitSmRespPdu)
        ensures
            r@ is None,
    {
        SubmitSmRespPdu { data: RespData::new_error() }
    }

    /// Parse this operation's body from `[pos, end)` of `bytes`.
    pub fn parse(bytes: &[u8], pos: usize, end: usize, command_status: u32) -> (r: Result<
        (SubmitSmRespPdu, usize),
        PduParseError,
    >)
        requires
            pos <= end <= bytes@.len(),
        ensures
            ({
                let sr = spec_read_resp_data(
                    bytes@,
                    pos as int,
                    end as int,
                    command_status,
                    MAX_LENGTH_MESSAGE_ID as int,
                    "message_id"@,
                );
                match r {
                    Ok((v, n)) => sr matches Ok((w, n2)) && v@ == w && n == n2 && resp_wf(
                        v@,
                        MAX_LENGTH_MESSAGE_ID as int,
                    ) && pos <= n <= end,
                    Err(e) => sr matches Err(e2) && e@ == e2,
                }
            }),
    {
        let (data, n) = RespData::parse(
            bytes,
            pos,
            end,
            command_status,
            MAX_LENGTH_MESSAGE_ID,
            "message_id",
        )?;
        Ok((SubmitSmRespPdu { data }, n))
    }

    /// Append this body's wire bytes.
    pub fn write(&self, buf: &mut Vec<u8>)
        ensures
            final(buf)@ == old(buf)@ + resp_wire(self@),
    {
        self.data.write(buf);
    }
}

impl DeliverSmRespPdu {
    /// A success response carrying the receipted `message_id`.
    pub fn new_ok(message_id: &str) -> (r: Result<DeliverSmRespPdu, PduParseError>)
        ensures
            ({
                let sr = crate::formats::spec_co_from_str(
                    message_id.spec_bytes(),
                    MAX_LENGTH_MESSAGE_ID as int,
                    "message_id"@,
                );
                match r {
                    Ok(v) => sr matches Ok(s) && v@ == Some(s) && resp_wf(
                        v@,
                        MAX_LENGTH_MESSAGE_ID as int,
                    ),
                    Err(e) => sr matches Err(e2) && e@ == e2,
                }
            }),
    {
        let data = RespData::new(message_id, MAX_LENGTH_MESSAGE_ID, "message_id")?;
        Ok(DeliverSmRespPdu { data })
    }

    /// A header-only error response.
    pub fn new_error() -> (r: DeliverSmRespPdu)
        ensures
            r@ is None,
    {
        DeliverSmRespPdu { data: RespData::new_error() }
    }

    /// Parse this operation's body from `[pos, end)` of `bytes`.
    pub fn parse(bytes: &[u8], pos: usize, end: usize, command_status: u32) -> (r: Result<
        (DeliverSmRespPdu, usize),
        PduParseError,
    >)
        requires
            pos <= end <= bytes@.len(),
        ensures
            ({
                let sr = spec_read_resp_data(
                    bytes@,
                    pos as int,
                    end as int,
                    command_status,
                    MAX_LENGTH_MESSAGE_ID as int,
                    "message_id"@,
                );
                match r {
                    Ok((v, n)) => sr matches Ok((w, n2)) && v@ == w && n == n2 && resp_wf(
                        v@,
                        MAX_LENGTH_MESSAGE_ID as int,
                    ) && pos <= n <= end,
                    Err(e) => sr matches Err(e2) && e@ == e2,
                }
            }),
    {
        let (data, n) = RespData::parse(
            bytes,
            pos,
            end,
            command_status,
            MAX_LENGTH_MESSAGE_ID,
            "message_id",
        )?;
        Ok((DeliverSmRespPdu { data }, n))
    }

    /// Append this body's wire bytes.
    pub fn write(&self, buf: &mut Vec<u8>)
        ensures
            final(buf)@ == old(buf)@ + resp_wire(self@),
    {
        self.data.write(buf);
    }
}

/// An `enquire_link` request: an empty body.
#[derive(Debug, PartialEq, Eq, Structural, Clone, Copy)]
pub struct EnquireLinkPdu {}

/// An `enquire_link_resp`: an empty body.
#[derive(Debug, PartialEq, Eq, Structural, Clone, Copy)]
pub struct EnquireLinkRespPdu {}

/// A `generic_nack`: an empty body used only as a response to input no
/// specific response fits.
#[derive(Debug, PartialEq, Eq, Structural, Clone, Copy)]
pub struct GenericNackPdu {}

impl EnquireLinkPdu {
    pub fn new() -> (r: EnquireLinkPdu) {
        EnquireLinkPdu {  }
    }

    /// Parse this operation's empty body: nothing is consumed.
    pub fn parse(bytes: &[u8], pos: usize, end: usize) -> (r: Result<
        (EnquireLinkPdu, usize),
        PduParseError,
    >)
        requires
            pos <= end <= bytes@.len(),
        ensures
            r matches Ok((v, n)) && n == pos,
    {
        Ok((EnquireLinkPdu {  }, pos))
    }

    /// An empty body adds no wire bytes.
    pub fn write(&self, buf: &mut Vec<u8>)
        ensures
            final(buf)@ == old(buf)@,
    {
    }
}

impl EnquireLinkRespPdu {
    pub fn new() -> (r: EnquireLinkRespPdu) {
        EnquireLinkRespPdu {  }
    }

    /// Parse this operation's empty body: nothing is consumed.
    pub fn parse(bytes: &[u8], pos: usize, end: usize) -> (r: Result<
        (EnquireLinkRespPdu, usize),
        PduParseError,
    >)
        requires
            pos <= end <= bytes@.len(),
        ensures
            r matches Ok((v, n)) && n == pos,
    {
        Ok((EnquireLinkRespPdu {  }, pos))
    }

    /// An empty body adds no wire bytes.
    pub fn write(&self, buf: &mut Vec<u8>)
        ensures
            final(buf)@ == old(buf)@,
    {
    }
}

impl GenericNackPdu {
    /// The only way to make one: a nack always reports an error.
    pub fn new_error() -> (r: GenericNackPdu) {
        GenericNackPdu {  }
    }

    /// Parse this operation's empty body: nothing is consumed.
    pub fn parse(bytes: &[u8], pos: usize, end: usize) -> (r: Result<
        (GenericNackPdu, usize),
        PduParseError,
    >)
        requires
            pos <= end <= bytes@.len(),
        ensures
            r matches Ok((v, n)) && n == pos,
    {
        Ok((GenericNackPdu {  }, pos))
    }

    /// An empty body adds no wire bytes.
    pub fn write(&self, buf: &mut Vec<u8>)
        ensures
            final(buf)@ == old(buf)@,
    {
    }
}

} // verus!
