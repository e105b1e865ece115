//! The shared body of `submit_sm` and `deliver_sm`: both operations
//! carry the same short-message fields and differ only in their
//! command ids and direction of travel.

use vstd::prelude::*;
use vstd::string::StringSliceAdditionalSpecFns;

use crate::formats::{
    coctet_wire, lemma_read_coctet_wire, spec_co_from_str, spec_read_co_field, spec_read_u8_field,
    COctetString, Integer1, OctetString,
};
use crate::pduparseerror::{fld, ErrBodyV, ErrV, PduParseError, PduParseErrorBody};

verus! {

pub const MAX_LENGTH_SERVICE_TYPE: usize = 6;

pub const MAX_LENGTH_SOURCE_ADDR: usize = 21;

pub const MAX_LENGTH_DESTINATION_ADDR: usize = 21;

pub const MAX_LENGTH_SCHEDULE_DELIVERY_TIME: usize = 17;

pub const MAX_LENGTH_VALIDITY_PERIOD: usize = 17;

pub const MAX_LENGTH_SHORT_MESSAGE: usize = 254;

/// The fields of a short-message operation.
#[derive(Debug, PartialEq, Clone)]
pub struct SmData {
    pub service_type: COctetString,
    pub source_addr_ton: Integer1,
    pub source_addr_npi: Integer1,
    pub source_addr: COctetString,
    pub dest_addr_ton: Integer1,
    pub dest_addr_npi: Integer1,
    pub destination_addr: COctetString,
    pub esm_class: Integer1,
    pub protocol_id: Integer1,
    pub priority_flag: Integer1,
    pub schedule_delivery_time: COctetString,
    pub validity_period: COctetString,
    pub registered_delivery: Integer1,
    pub replace_if_present_flag: Integer1,
    pub data_coding: Integer1,
    pub sm_default_msg_id: Integer1,
    pub short_message: OctetString,
}

/// The mathematical value of a short-message operation body.
pub struct SmDataV {
    pub service_type: Seq<u8>,
    pub source_addr_ton: u8,
    pub source_addr_npi: u8,
    pub source_addr: Seq<u8>,
    pub dest_addr_ton: u8,
    pub dest_addr_npi: u8,
    pub destination_addr: Seq<u8>,
    pub esm_class: u8,
    pub protocol_id: u8,
    pub priority_flag: u8,
    pub schedule_delivery_time: Seq<u8>,
    pub validity_period: Seq<u8>,
    pub registered_delivery: u8,
    pub replace_if_present_flag: u8,
    pub data_coding: u8,
    pub sm_default_msg_id: u8,
    pub short_message: Seq<u8>,
}

impl View for SmData {
    type V = SmDataV;

    open spec fn view(&self) -> SmDataV {
        SmDataV {
            service_type: self.service_type@,
            source_addr_ton: self.source_addr_ton.value,
            source_addr_npi: self.source_addr_npi.value,
            source_addr: self.source_addr@,
            dest_addr_ton: self.dest_addr_ton.value,
            dest_addr_npi: self.dest_addr_npi.value,
            destination_addr: self.destination_addr@,
            esm_class: self.esm_class.value,
            protocol_id: self.protocol_id.value,
            priority_flag: self.priority_flag.value,
            schedule_delivery_time: self.schedule_delivery_time@,
            validity_period: self.validity_period@,
            registered_delivery: self.registered_delivery.value,
            replace_if_present_flag: self.replace_if_present_flag.value,
            data_coding: self.data_coding.value,
            sm_default_msg_id: self.sm_default_msg_id.value,
            short_message: self.short_message@,
        }
    }
}

/// A length a `schedule_delivery_time` or `validity_period` value may
/// have: empty (just the NUL on the wire) or sixteen characters (the
/// absolute time form plus the NUL).
pub open spec fn sched_len_ok(len: nat) -> bool {
    len == 0 || len == 16
}

impl SmDataV {
    /// Every string field holds acceptable bytes and fits its maximum,
    /// and the two time fields have one of their two allowed lengths.
    pub open spec fn wf(self) -> bool {
        &&& crate::formats::coctet_bytes_ok(self.service_type)
        &&& self.service_type.len() + 1 <= MAX_LENGTH_SERVICE_TYPE
        &&& crate::formats::coctet_bytes_ok(self.source_addr)
        &&& self.source_addr.len() + 1 <= MAX_LENGTH_SOURCE_ADDR
        &&& crate::formats::coctet_bytes_ok(self.destination_addr)
        &&& self.destination_addr.len() + 1 <= MAX_LENGTH_DESTINATION_ADDR
        &&& crate::formats::coctet_bytes_ok(self.schedule_delivery_time)
        &&& self.schedule_delivery_time.len() + 1 <= MAX_LENGTH_SCHEDULE_DELIVERY_TIME
        &&& sched_len_ok(self.schedule_delivery_time.len())
        &&& crate::formats::coctet_bytes_ok(self.validity_period)
        &&& self.validity_period.len() + 1 <= MAX_LENGTH_VALIDITY_PERIOD
        &&& sched_len_ok(self.validity_period.len())
        &&& self.short_message.len() <= MAX_LENGTH_SHORT_MESSAGE
    }

    /// The leading wire segment: addresses and their type fields.
    pub open spec fn head_wire(self) -> Seq<u8> {
        coctet_wire(self.service_type) + seq![self.source_addr_ton, self.source_addr_npi]
            + coctet_wire(self.source_addr) + seq![self.dest_addr_ton, self.dest_addr_npi]
            + coctet_wire(self.destination_addr)
    }

    /// The middle wire segment: message class and the two time fields.
    pub open spec fn mid_wire(self) -> Seq<u8> {
        seq![self.esm_class, self.protocol_id, self.priority_flag] + coctet_wire(
            self.schedule_delivery_time,
        ) + coctet_wire(self.validity_period)
    }

    /// The trailing wire segment: flags, the message length, and the
    /// message itself.
    pub open spec fn tail_wire(self) -> Seq<u8> {
        seq![
            self.registered_delivery,
            self.replace_if_present_flag,
            self.data_coding,
            self.sm_default_msg_id,
            self.short_message.len() as u8,
        ] + self.short_message
    }

    /// The bytes this body occupies on the wire.
    pub open spec fn wire(self) -> Seq<u8> {
        self.head_wire() + self.mid_wire() + self.tail_wire()
    }
}

/// The explanation attached to a time field of the wrong length.
pub open spec fn incorrect_sched_len_text() -> Seq<char> {
    "Must be either 1 or 17 characters, including the NULL character."@
}

/// Accept a time field value's stored length (terminator excluded)
/// exactly when it is one of the two the wire format allows.
pub fn validate_length_1_or_17(field_name: &str, length: usize) -> (r: Result<(), PduParseError>)
    ensures
        match r {
            Ok(_) => sched_len_ok(length as nat),
            Err(e) => !sched_len_ok(length as nat) && e@ == ErrV::plain(
                ErrBodyV::IncorrectLength(
                    #[verifier::truncate] (length as u32),
                    incorrect_sched_len_text(),
                ),
            ).with_field(field_name@),
        },
{
    if length == 0 || length == 16 {
        Ok(())
    } else {
        Err(
            PduParseError::for_incorrect_length(
                #[verifier::truncate] (length as u32),
                "Must be either 1 or 17 characters, including the NULL character.",
            ).into_with_field_name(field_name),
        )
    }
}

/// Build a short-message body from its field values: the two time
/// fields' lengths first, then each string field in wire order, then
/// the message's size.
pub open spec fn spec_new_sm_data(
    service_type: Seq<u8>,
    source_addr_ton: u8,
    source_addr_npi: u8,
    source_addr: Seq<u8>,
    dest_addr_ton: u8,
    dest_addr_npi: u8,
    destination_addr: Seq<u8>,
    esm_class: u8,
    protocol_id: u8,
    priority_flag: u8,
    schedule_delivery_time: Seq<u8>,
    validity_period: Seq<u8>,
    registered_delivery: u8,
    replace_if_present_flag: u8,
    data_coding: u8,
    sm_default_msg_id: u8,
    short_message: Seq<u8>,
) -> Result<SmDataV, ErrV> {
    if !sched_len_ok(schedule_delivery_time.len()) {
        Err(
            ErrV::plain(
                ErrBodyV::IncorrectLength(
                    #[verifier::truncate] (schedule_delivery_time.len() as u32),
                    incorrect_sched_len_text(),
                ),
            ).with_field("schedule_delivery_time"@),
        )
    } else if !sched_len_ok(validity_period.len()) {
        Err(
            ErrV::plain(
                ErrBodyV::IncorrectLength(
                    #[verifier::truncate] (validity_period.len() as u32),
                    incorrect_sched_len_text(),
                ),
            ).with_field("validity_period"@),
        )
    } else {
        match spec_co_from_str(service_type, MAX_LENGTH_SERVICE_TYPE as int, "service_type"@) {
            Err(e) => Err(e),
            Ok(st) => match spec_co_from_str(
                source_addr,
                MAX_LENGTH_SOURCE_ADDR as int,
                "source_addr"@,
            ) {
                Err(e) => Err(e),
                Ok(sa) => match spec_co_from_str(
                    destination_addr,
                    MAX_LENGTH_DESTINATION_ADDR as int,
                    "destination_addr"@,
                ) {
                    Err(e) => Err(e),
                    Ok(da) => match spec_co_from_str(
                        schedule_delivery_time,
                        MAX_LENGTH_SCHEDULE_DELIVERY_TIME as int,
                        "schedule_delivery_time"@,
                    ) {
                        Err(e) => Err(e),
                        Ok(sched) => match spec_co_from_str(
                            validity_period,
                            MAX_LENGTH_VALIDITY_PERIOD as int,
                            "validity_period"@,
                        ) {
                            Err(e) => Err(e),
                            Ok(valid) => if short_message.len() > MAX_LENGTH_SHORT_MESSAGE {
                                Err(
                                    ErrV::plain(
                                        ErrBodyV::COctetStringTooLong(
                                            MAX_LENGTH_SHORT_MESSAGE as nat,
                                        ),
                                    ).with_field("short_message"@),
                                )
                            } else {
                                Ok(
                                    SmDataV {
                                        service_type: st,
                                        source_addr_ton,
                                        source_addr_npi,
                                        source_addr: sa,
                                        dest_addr_ton,
                                        dest_addr_npi,
                                        destination_addr: da,
                                        esm_class,
                                        protocol_id,
                                        priority_flag,
                                        schedule_delivery_time: sched,
                                        validity_period: valid,
                                        registered_delivery,
                                        replace_if_present_flag,
                                        data_coding,
                                        sm_default_msg_id,
                                        short_message,
                                    },
                                )
                            },
                        },
                    },
                },
            },
        }
    }
}

/// Parse the leading wire segment.
pub open spec fn spec_read_sm_head(b: Seq<u8>, pos: int, end: int) -> Result<
    ((Seq<u8>, u8, u8, Seq<u8>, u8, u8, Seq<u8>), int),
    ErrV,
> {
    match spec_read_co_field(b, pos, end, MAX_LENGTH_SERVICE_TYPE as int, "service_type"@) {
        Err(e) => Err(e),
        Ok((st, p1)) => match spec_read_u8_field(b, p1, end, "source_addr_ton"@) {
            Err(e) => Err(e),
            Ok((ston, p2)) => match spec_read_u8_field(b, p2, end, "source_addr_npi"@) {
                Err(e) => Err(e),
                Ok((snpi, p3)) => match spec_read_co_field(
                    b,
                    p3,
                    end,
                    MAX_LENGTH_SOURCE_ADDR as int,
                    "source_addr"@,
                ) {
                    Err(e) => Err(e),
                    Ok((sa, p4)) => match spec_read_u8_field(b, p4, end, "dest_addr_ton"@) {
                        Err(e) => Err(e),
                        Ok((dton, p5)) => match spec_read_u8_field(b, p5, end, "dest_addr_npi"@) {
                            Err(e) => Err(e),
                            Ok((dnpi, p6)) => match spec_read_co_field(
                                b,
                                p6,
                                end,
                                MAX_LENGTH_DESTINATION_ADDR as int,
                                "destination_addr"@,
                            ) {
                                Err(e) => Err(e),
                                Ok((da, p7)) => Ok(((st, ston, snpi, sa, dton, dnpi, da), p7)),
                            },
                        },
                    },
                },
            },
        },
    }
}

/// Parse the middle wire segment.
pub open spec fn spec_read_sm_mid(b: Seq<u8>, pos: int, end: int) -> Result<
    ((u8, u8, u8, Seq<u8>, Seq<u8>), int),
    ErrV,
> {
    match spec_read_u8_field(b, pos, end, "esm_class"@) {
        Err(e) => Err(e),
        Ok((esm, p1)) => match spec_read_u8_field(b, p1, end, "protocol_id"@) {
            Err(e) => Err(e),
            Ok((proto, p2)) => match spec_read_u8_field(b, p2, end, "priority_flag"@) {
                Err(e) => Err(e),
                Ok((prio, p3)) => match spec_read_co_field(
                    b,
                    p3,
                    end,
                    MAX_LENGTH_SCHEDULE_DELIVERY_TIME as int,
                    "schedule_delivery_time"@,
                ) {
                    Err(e) => Err(e),
                    Ok((sched, p4)) => match spec_read_co_field(
                        b,
                        p4,
                        end,
                        MAX_LENGTH_VALIDITY_PERIOD as int,
                        "validity_period"@,
                    ) {
                        Err(e) => Err(e),
                        Ok((valid, p5)) => Ok(((esm, proto, prio, sched, valid), p5)),
                    },
                },
            },
        },
    }
}

/// Parse the trailing wire segment.
pub open spec fn spec_read_sm_tail(b: Seq<u8>, pos: int, end: int) -> Result<
    ((u8, u8, u8, u8, Seq<u8>), int),
    ErrV,
> {
    match spec_read_u8_field(b, pos, end, "registered_delivery"@) {
        Err(e) => Err(e),
        Ok((reg, p1)) => match spec_read_u8_field(b, p1, end, "replace_if_present_flag"@) {
            Err(e) => Err(e),
            Ok((repl, p2)) => match spec_read_u8_field(b, p2, end, "data_coding"@) {
                Err(e) => Err(e),
                Ok((dc, p3)) => match spec_read_u8_field(b, p3, end, "sm_default_msg_id"@) {
                    Err(e) => Err(e),
                    Ok((smdef, p4)) => match spec_read_u8_field(b, p4, end, "sm_length"@) {
                        Err(e) => Err(e),
                        Ok((smlen, p5)) => if smlen > MAX_LENGTH_SHORT_MESSAGE {
                            Err(
                                ErrV::plain(
                                    ErrBodyV::COctetStringTooLong(MAX_LENGTH_SHORT_MESSAGE as nat),
                                ).with_field("short_message"@),
                            )
                        } else if p5 + smlen > end {
                            Err(ErrV::plain(ErrBodyV::NotEnoughBytes).with_field("short_message"@))
                        } else {
                            Ok(
                                (
                                    (reg, repl, dc, smdef, b.subrange(p5, p5 + smlen)),
                                    p5 + smlen,
                                ),
                            )
                        },
                    },
                },
            },
        },
    }
}

/// Parse a short-message body from `[pos, end)`: the three wire
/// segments, then the length rules on the two time fields.
pub open spec fn spec_read_sm_data(b: Seq<u8>, pos: int, end: int) -> Result<
    (SmDataV, int),
    ErrV,
> {
    match spec_read_sm_head(b, pos, end) {
        Err(e) => Err(e),
        Ok(((st, ston, snpi, sa, dton, dnpi, da), p1)) => match spec_read_sm_mid(b, p1, end) {
            Err(e) => Err(e),
            Ok(((esm, proto, prio, sched, valid), p2)) => match spec_read_sm_tail(b, p2, end) {
                Err(e) => Err(e),
                Ok(((reg, repl, dc, smdef, sm), p3)) => if !sched_len_ok(sched.len()) {
                    Err(
                        ErrV::plain(
                            ErrBodyV::IncorrectLength(
                                #[verifier::truncate] (sched.len() as u32),
                                incorrect_sched_len_text(),
                            ),
                        ).with_field("schedule_delivery_time"@),
                    )
                } else if !sched_len_ok(valid.len()) {
                    Err(
                        ErrV::plain(
                            ErrBodyV::IncorrectLength(
                                #[verifier::truncate] (valid.len() as u32),
                                incorrect_sched_len_text(),
                            ),
                        ).with_field("validity_period"@),
                    )
                } else {
                    Ok(
                        (
                            SmDataV {
                                service_type: st,
                                source_addr_ton: ston,
                                source_addr_npi: snpi,
                                source_addr: sa,
                                dest_addr_ton: dton,
                                dest_addr_npi: dnpi,
                                destination_addr: da,
                                esm_class: esm,
                                protocol_id: proto,
                                priority_flag: prio,
                                schedule_delivery_time: sched,
                                validity_period: valid,
                                registered_delivery: reg,
                                replace_if_present_flag: repl,
                                data_coding: dc,
                                sm_default_msg_id: smdef,
                                short_message: sm,
                            },
                            p3,
                        ),
                    )
                },
            },
        },
    }
}

impl SmData {
    /// Build a short-message body, rejecting any field value the wire
    /// format could not carry.
    pub fn new(
        service_type: &str,
        source_addr_ton: u8,
        source_addr_npi: u8,
        source_addr: &str,
        dest_addr_ton: u8,
        dest_addr_npi: u8,
        destination_addr: &str,
        esm_class: u8,
        protocol_id: u8,
        priority_flag: u8,
        schedule_delivery_time: &str,
        validity_period: &str,
        registered_delivery: u8,
        replace_if_present_flag: u8,
        data_coding: u8,
        sm_default_msg_id: u8,
        short_message: &[u8],
    ) -> (r: Result<SmData, PduParseError>)
        ensures
            ({
                let sr = spec_new_sm_data(
                    service_type.spec_bytes(),
                    source_addr_ton,
                    source_addr_npi,
                    source_addr.spec_bytes(),
                    dest_addr_ton,
                    dest_addr_npi,
                    destination_addr.spec_bytes(),
                    esm_class,
                    protocol_id,
                    priority_flag,
                    schedule_delivery_time.spec_bytes(),
                    validity_period.spec_bytes(),
                    registered_delivery,
                    replace_if_present_flag,
                    data_coding,
                    sm_default_msg_id,
                    short_message@,
                );
                match r {
                    Ok(v) => sr matches Ok(w) && v@ == w && v@.wf(),
                    Err(e) => sr matches Err(e2) && e@ == e2,
                }
            }),
    {
        proof {
            crate::formats::lemma_find_bad_none(service_type.spec_bytes(), 0);
            crate::formats::lemma_find_bad_none(source_addr.spec_bytes(), 0);
            crate::formats::lemma_find_bad_none(destination_addr.spec_bytes(), 0);
            crate::formats::lemma_find_bad_none(schedule_delivery_time.spec_bytes(), 0);
            crate::formats::lemma_find_bad_none(validity_period.spec_bytes(), 0);
        }
        validate_length_1_or_17("schedule_delivery_time", schedule_delivery_time.as_bytes().len())?;
        validate_length_1_or_17("validity_period", validity_period.as_bytes().len())?;
        let service_type = fld(
            "service_type",
            COctetString::from_str(service_type, MAX_LENGTH_SERVICE_TYPE),
        )?;
        let source_addr = fld(
            "source_addr",
            COctetString::from_str(source_addr, MAX_LENGTH_SOURCE_ADDR),
        )?;
        let destination_addr = fld(
            "destination_addr",
            COctetString::from_str(destination_addr, MAX_LENGTH_DESTINATION_ADDR),
        )?;
        let schedule_delivery_time = fld(
            "schedule_delivery_time",
            COctetString::from_str(schedule_delivery_time, MAX_LENGTH_SCHEDULE_DELIVERY_TIME),
        )?;
        let validity_period = fld(
            "validity_period",
            COctetString::from_str(validity_period, MAX_LENGTH_VALIDITY_PERIOD),
        )?;
        let short_message = fld(
            "short_message",
            OctetString::from_bytes(short_message, MAX_LENGTH_SHORT_MESSAGE),
        )?;
        Ok(
            SmData {
                service_type,
                source_addr_ton: Integer1::new(source_addr_ton),
                source_addr_npi: Integer1::new(source_addr_npi),
                source_addr,
                dest_addr_ton: Integer1::new(dest_addr_ton),
                dest_addr_npi: Integer1::new(dest_addr_npi),
                destination_addr,
                esm_class: Integer1::new(esm_class),
                protocol_id: Integer1::new(protocol_id),
                priority_flag: Integer1::new(priority_flag),
                schedule_delivery_time,
                validity_period,
                registered_delivery: Integer1::new(registered_delivery),
                replace_if_present_flag: Integer1::new(replace_if_present_flag),
                data_coding: Integer1::new(data_coding),
                sm_default_msg_id: Integer1::new(sm_default_msg_id),
                short_message,
            },
        )
    }

    /// Parse a short-message body from `[pos, end)` of `bytes`.
    pub fn parse(bytes: &[u8], pos: usize, end: usize) -> (r: Result<
        (SmData, usize),
        PduParseError,
    >)
        requires
            pos <= end <= bytes@.len(),
        ensures
            ({
                let sr = spec_read_sm_data(bytes@, pos as int, end as int);
                match r {
                    Ok((v, n)) => sr matches Ok((w, n2)) && v@ == w && n == n2 && v@.wf() && pos
                        <= n <= end,
                    Err(e) => sr matches Err(e2) && e@ == e2,
                }
            }),
    {
        let (service_type, p1) = fld(
            "service_type",
            COctetString::read(bytes, pos, end, MAX_LENGTH_SERVICE_TYPE),
        )?;
        let (source_addr_ton, p2) = fld("source_addr_ton", Integer1::read(bytes, p1, end))?;
        let (source_addr_npi, p3) = fld("source_addr_npi", Integer1::read(bytes, p2, end))?;
        let (source_addr, p4) = fld(
            "source_addr",
            COctetString::read(bytes, p3, end, MAX_LENGTH_SOURCE_ADDR),
        )?;
        let (dest_addr_ton, p5) = fld("dest_addr_ton", Integer1::read(bytes, p4, end))?;
        let (dest_addr_npi, p6) = fld("dest_addr_npi", Integer1::read(bytes, p5, end))?;
        let (destination_addr, p7) = fld(
            "destination_addr",
            COctetString::read(bytes, p6, end, MAX_LENGTH_DESTINATION_ADDR),
        )?;
        let (esm_class, p8) = fld("esm_class", Integer1::read(bytes, p7, end))?;
        let (protocol_id, p9) = fld("protocol_id", Integer1::read(bytes, p8, end))?;
        let (priority_flag, p10) = fld("priority_flag", Integer1::read(bytes, p9, end))?;
        let (schedule_delivery_time, p11) = fld(
            "schedule_delivery_time",
            COctetString::read(bytes, p10, end, MAX_LENGTH_SCHEDULE_DELIVERY_TIME),
        )?;
        let (validity_period, p12) = fld(
            "validity_period",
            COctetString::read(bytes, p11, end, MAX_LENGTH_VALIDITY_PERIOD),
        )?;
        let (registered_delivery, p13) = fld(
            "registered_delivery",
            Integer1::read(bytes, p12, end),
        )?;
        let (replace_if_present_flag, p14) = fld(
            "replace_if_present_flag",
            Integer1::read(bytes, p13, end),
        )?;
        let (data_coding, p15) = fld("data_coding", Integer1::read(bytes, p14, end))?;
        let (sm_default_msg_id, p16) = fld("sm_default_msg_id", Integer1::read(bytes, p15, end))?;
        let (sm_length, p17) = fld("sm_length", Integer1::read(bytes, p16, end))?;
        let declared: usize = sm_length.value as usize;
        if declared > MAX_LENGTH_SHORT_MESSAGE {
            return Err(
                PduParseError::new(
                    PduParseErrorBody::COctetStringTooLong(MAX_LENGTH_SHORT_MESSAGE),
                ).into_with_field_name("short_message"),
            );
        }
        if declared > end - p17 {
            return Err(
                PduParseError::new(PduParseErrorBody::NotEnoughBytes).into_with_field_name(
                    "short_message",
                ),
            );
        }
        let short_message = OctetString {
            value: vstd::slice::slice_to_vec(
                vstd::slice::slice_subrange(bytes, p17, p17 + declared),
            ),
        };
        let p18 = p17 + declared;
        validate_length_1_or_17("schedule_delivery_time", schedule_delivery_time.len())?;
        validate_length_1_or_17("validity_period", validity_period.len())?;
        Ok(
            (
                SmData {
                    service_type,
                    source_addr_ton,
                    source_addr_npi,
                    source_addr,
                    dest_addr_ton,
                    dest_addr_npi,
                    destination_addr,
                    esm_class,
                    protocol_id,
                    priority_flag,
                    schedule_delivery_time,
                    validity_period,
                    registered_delivery,
                    replace_if_present_flag,
                    data_coding,
                    sm_default_msg_id,
                    short_message,
                },
                p18,
            ),
        )
    }

    /// Append this body's wire bytes, `sm_length` included.
    pub fn write(&self, buf: &mut Vec<u8>)
        requires
            self@.short_message.len() <= MAX_LENGTH_SHORT_MESSAGE,
        ensures
            final(buf)@ == old(buf)@ + self@.wire(),
    {
        self.service_type.write(buf);
        self.source_addr_ton.write(buf);
        self.source_addr_npi.write(buf);
        self.source_addr.write(buf);
        self.dest_addr_ton.write(buf);
        self.dest_addr_npi.write(buf);
        self.destination_addr.write(buf);
        assert(buf@ =~= old(buf)@ + self@.head_wire());
        let ghost mid = buf@;
        self.esm_class.write(buf);
        self.protocol_id.write(buf);
        self.priority_flag.write(buf);
        self.schedule_delivery_time.write(buf);
        self.validity_period.write(buf);
        assert(buf@ =~= mid + self@.mid_wire());
        let ghost mid2 = buf@;
        self.registered_delivery.write(buf);
        self.replace_if_present_flag.write(buf);
        self.data_coding.write(buf);
        self.sm_default_msg_id.write(buf);
        buf.push(self.short_message.len() as u8);
        self.short_message.write(buf);
        assert(buf@ =~= mid2 + self@.tail_wire());
        assert(buf@ =~= old(buf)@ + self@.wire());
    }
}

/// A short-message body read touches only its window: reading from
/// two buffers that agree on `[pos, end)` yields the same outcome.
pub proof fn lemma_read_sm_data_congruent(b1: Seq<u8>, b2: Seq<u8>, pos: int, end: int)
    requires
        0 <= pos <= end,
        end <= b1.len(),
        end <= b2.len(),
        forall|i: int| pos <= i < end ==> b1[i] == b2[i],
    ensures
        spec_read_sm_data(b1, pos, end) == spec_read_sm_data(b2, pos, end),
{
    lemma_read_sm_head_congruent(b1, b2, pos, end);
    match spec_read_sm_head(b1, pos, end) {
        Ok((_, p1)) => {
            lemma_read_sm_head_stops_inside(b1, pos, end);
            lemma_read_sm_mid_congruent(b1, b2, p1, end);
            match spec_read_sm_mid(b1, p1, end) {
                Ok((_, p2)) => {
                    lemma_read_sm_mid_stops_inside(b1, p1, end);
                    lemma_read_sm_tail_congruent(b1, b2, p2, end);
                },
                Err(_) => {
                },
            }
        },
        Err(_) => {
        },
    }
}

/// Where a successful head-segment read stops.
proof fn lemma_read_sm_head_stops_inside(b: Seq<u8>, pos: int, end: int)
    requires
        0 <= pos <= end <= b.len(),
    ensures
        spec_read_sm_head(b, pos, end) matches Ok((_, n)) ==> pos <= n <= end,
{
    crate::formats::lemma_read_coctet_bounds(b, pos, end, MAX_LENGTH_SERVICE_TYPE as int);
    match crate::formats::spec_read_coctet(b, pos, end, MAX_LENGTH_SERVICE_TYPE as int) {
        crate::formats::CoReadV::Value(_, p1) => {
            if p1 + 2 <= end {
                crate::formats::lemma_read_coctet_bounds(
                    b,
                    p1 + 2,
                    end,
                    MAX_LENGTH_SOURCE_ADDR as int,
                );
                match crate::formats::spec_read_coctet(
                    b,
                    p1 + 2,
                    end,
                    MAX_LENGTH_SOURCE_ADDR as int,
                ) {
                    crate::formats::CoReadV::Value(_, p4) => {
                        if p4 + 2 <= end {
                            crate::formats::lemma_read_coctet_bounds(
                                b,
                                p4 + 2,
                                end,
                                MAX_LENGTH_DESTINATION_ADDR as int,
                            );
                        }
                    },
                    _ => {
                    },
                }
            }
        },
        _ => {
        },
    }
}

/// Where a successful middle-segment read stops.
proof fn lemma_read_sm_mid_stops_inside(b: Seq<u8>, pos: int, end: int)
    requires
        0 <= pos <= end <= b.len(),
    ensures
        spec_read_sm_mid(b, pos, end) matches Ok((_, n)) ==> pos <= n <= end,
{
    if pos + 3 <= end {
        crate::formats::lemma_read_coctet_bounds(
            b,
            pos + 3,
            end,
            MAX_LENGTH_SCHEDULE_DELIVERY_TIME as int,
        );
        match crate::formats::spec_read_coctet(
            b,
            pos + 3,
            end,
            MAX_LENGTH_SCHEDULE_DELIVERY_TIME as int,
        ) {
            crate::formats::CoReadV::Value(_, p4) => {
                crate::formats::lemma_read_coctet_bounds(
                    b,
                    p4,
                    end,
                    MAX_LENGTH_VALIDITY_PERIOD as int,
                );
            },
            _ => {
            },
        }
    }
}

/// The head segment's congruence over equal windows.
proof fn lemma_read_sm_head_congruent(b1: Seq<u8>, b2: Seq<u8>, pos: int, end: int)
    requires
        0 <= pos <= end,
        end <= b1.len(),
        end <= b2.len(),
        forall|i: int| pos <= i < end ==> b1[i] == b2[i],
    ensures
        spec_read_sm_head(b1, pos, end) == spec_read_sm_head(b2, pos, end),
{
    crate::formats::lemma_read_coctet_congruent(b1, b2, pos, end, MAX_LENGTH_SERVICE_TYPE as int);
    crate::formats::lemma_read_coctet_bounds(b1, pos, end, MAX_LENGTH_SERVICE_TYPE as int);
    match crate::formats::spec_read_coctet(b1, pos, end, MAX_LENGTH_SERVICE_TYPE as int) {
        crate::formats::CoReadV::Value(_, p1) => {
            if p1 + 2 <= end {
                crate::formats::lemma_read_coctet_congruent(
                    b1,
                    b2,
                    p1 + 2,
                    end,
                    MAX_LENGTH_SOURCE_ADDR as int,
                );
                crate::formats::lemma_read_coctet_bounds(
                    b1,
                    p1 + 2,
                    end,
                    MAX_LENGTH_SOURCE_ADDR as int,
                );
                match crate::formats::spec_read_coctet(
                    b1,
                    p1 + 2,
                    end,
                    MAX_LENGTH_SOURCE_ADDR as int,
                ) {
                    crate::formats::CoReadV::Value(_, p4) => {
                        if p4 + 2 <= end {
                            crate::formats::lemma_read_coctet_congruent(
                                b1,
                                b2,
                                p4 + 2,
                                end,
                                MAX_LENGTH_DESTINATION_ADDR as int,
                            );
                        }
                    },
                    _ => {
                    },
                }
            }
        },
        _ => {
        },
    }
}

/// The middle segment's congruence over equal windows.
proof fn lemma_read_sm_mid_congruent(b1: Seq<u8>, b2: Seq<u8>, pos: int, end: int)
    requires
        0 <= pos <= end,
        end <= b1.len(),
        end <= b2.len(),
        forall|i: int| pos <= i < end ==> b1[i] == b2[i],
    ensures
        spec_read_sm_mid(b1, pos, end) == spec_read_sm_mid(b2, pos, end),
{
    if pos + 3 <= end {
        crate::formats::lemma_read_coctet_congruent(
            b1,
            b2,
            pos + 3,
            end,
            MAX_LENGTH_SCHEDULE_DELIVERY_TIME as int,
        );
        crate::formats::lemma_read_coctet_bounds(
            b1,
            pos + 3,
            end,
            MAX_LENGTH_SCHEDULE_DELIVERY_TIME as int,
        );
        match crate::formats::spec_read_coctet(
            b1,
            pos + 3,
            end,
            MAX_LENGTH_SCHEDULE_DELIVERY_TIME as int,
        ) {
            crate::formats::CoReadV::Value(_, p4) => {
                crate::formats::lemma_read_coctet_congruent(
                    b1,
                    b2,
                    p4,
                    end,
                    MAX_LENGTH_VALIDITY_PERIOD as int,
                );
            },
            _ => {
            },
        }
    }
}

/// The tail segment's congruence over equal windows.
proof fn lemma_read_sm_tail_congruent(b1: Seq<u8>, b2: Seq<u8>, pos: int, end: int)
    requires
        0 <= pos <= end,
        end <= b1.len(),
        end <= b2.len(),
        forall|i: int| pos <= i < end ==> b1[i] == b2[i],
    ensures
        spec_read_sm_tail(b1, pos, end) == spec_read_sm_tail(b2, pos, end),
{
    if pos + 5 <= end {
        let smlen = b1[pos + 4];
        if pos + 5 + smlen <= end {
            assert(b1.subrange(pos + 5, pos + 5 + smlen) =~= b2.subrange(pos + 5, pos + 5 + smlen));
        }
    }
}

/// Parsing the leading wire segment of a well-formed body yields its
/// field values back.
proof fn lemma_sm_head_roundtrip(b: Seq<u8>, pos: int, end: int, v: SmDataV)
    requires
        v.wf(),
        0 <= pos,
        pos + v.head_wire().len() <= end <= b.len(),
        b.subrange(pos, pos + v.head_wire().len()) == v.head_wire(),
    ensures
        spec_read_sm_head(b, pos, end) == Ok::<_, ErrV>(
            (
                (
                    v.service_type,
                    v.source_addr_ton,
                    v.source_addr_npi,
                    v.source_addr,
                    v.dest_addr_ton,
                    v.dest_addr_npi,
                    v.destination_addr,
                ),
                pos + v.head_wire().len(),
            ),
        ),
{
    let w = v.head_wire();
    let c1 = coctet_wire(v.service_type);
    let s2 = seq![v.source_addr_ton, v.source_addr_npi];
    let c3 = coctet_wire(v.source_addr);
    let s4 = seq![v.dest_addr_ton, v.dest_addr_npi];
    let c5 = coctet_wire(v.destination_addr);
    let p1 = pos + c1.len();
    let p2 = p1 + 2;
    let p3 = p2 + c3.len();
    let p4 = p3 + 2;
    let p5 = p4 + c5.len();
    assert(w == c1 + s2 + c3 + s4 + c5);
    assert forall|j: int| 0 <= j < w.len() implies b[pos + j] == w[j] by {
        assert(b.subrange(pos, pos + w.len())[j] == b[pos + j]);
    }
    assert forall|k: int| 0 <= k < c1.len() implies w[k] == c1[k] by {
        assert((c1 + s2)[k] == c1[k]);
        assert((c1 + s2 + c3)[k] == (c1 + s2)[k]);
        assert((c1 + s2 + c3 + s4)[k] == (c1 + s2 + c3)[k]);
        assert(w[k] == (c1 + s2 + c3 + s4)[k]);
    }
    assert forall|k: int| 0 <= k < 2 implies w[p1 - pos + k] == s2[k] by {
        let i = c1.len() + k;
        assert((c1 + s2)[i] == s2[k]);
        assert((c1 + s2 + c3)[i] == (c1 + s2)[i]);
        assert((c1 + s2 + c3 + s4)[i] == (c1 + s2 + c3)[i]);
        assert(w[i] == (c1 + s2 + c3 + s4)[i]);
    }
    assert forall|k: int| 0 <= k < c3.len() implies w[p2 - pos + k] == c3[k] by {
        let i = c1.len() + 2 + k;
        assert((c1 + s2 + c3)[i] == c3[k]);
        assert((c1 + s2 + c3 + s4)[i] == (c1 + s2 + c3)[i]);
        assert(w[i] == (c1 + s2 + c3 + s4)[i]);
    }
    assert forall|k: int| 0 <= k < 2 implies w[p3 - pos + k] == s4[k] by {
        let i = c1.len() + 2 + c3.len() + k;
        assert((c1 + s2 + c3 + s4)[i] == s4[k]);
        assert(w[i] == (c1 + s2 + c3 + s4)[i]);
    }
    assert forall|k: int| 0 <= k < c5.len() implies w[p4 - pos + k] == c5[k] by {
        let i = c1.len() + 2 + c3.len() + 2 + k;
        assert(w[i] == c5[k]);
    }
    assert(b.subrange(pos, p1) =~= c1);
    lemma_read_coctet_wire(b, pos, end, MAX_LENGTH_SERVICE_TYPE as int, v.service_type);
    assert(b[p1] == v.source_addr_ton);
    assert(b[p1 + 1] == v.source_addr_npi);
    assert(b.subrange(p2, p3) =~= c3);
    lemma_read_coctet_wire(b, p2, end, MAX_LENGTH_SOURCE_ADDR as int, v.source_addr);
    assert(b[p3] == v.dest_addr_ton);
    assert(b[p3 + 1] == v.dest_addr_npi);
    assert(b.subrange(p4, p5) =~= c5);
    lemma_read_coctet_wire(b, p4, end, MAX_LENGTH_DESTINATION_ADDR as int, v.destination_addr);
}

/// Parsing the middle wire segment of a well-formed body yields its
/// field values back.
proof fn lemma_sm_mid_roundtrip(b: Seq<u8>, pos: int, end: int, v: SmDataV)
    requires
        v.wf(),
        0 <= pos,
        pos + v.mid_wire().len() <= end <= b.len(),
        b.subrange(pos, pos + v.mid_wire().len()) == v.mid_wire(),
    ensures
        spec_read_sm_mid(b, pos, end) == Ok::<_, ErrV>(
            (
                (
                    v.esm_class,
                    v.protocol_id,
                    v.priority_flag,
                    v.schedule_delivery_time,
                    v.validity_period,
                ),
                pos + v.mid_wire().len(),
            ),
        ),
{
    let w = v.mid_wire();
    let s1 = seq![v.esm_class, v.protocol_id, v.priority_flag];
    let c2 = coctet_wire(v.schedule_delivery_time);
    let c3 = coctet_wire(v.validity_period);
    let p1 = pos + 3;
    let p2 = p1 + c2.len();
    let p3 = p2 + c3.len();
    assert(w == s1 + c2 + c3);
    assert forall|j: int| 0 <= j < w.len() implies b[pos + j] == w[j] by {
        assert(b.subrange(pos, pos + w.len())[j] == b[pos + j]);
    }
    assert forall|k: int| 0 <= k < 3 implies w[k] == s1[k] by {
        assert((s1 + c2)[k] == s1[k]);
        assert(w[k] == (s1 + c2)[k]);
    }
    assert forall|k: int| 0 <= k < c2.len() implies w[p1 - pos + k] == c2[k] by {
        let i = 3 + k;
        assert((s1 + c2)[i] == c2[k]);
        assert(w[i] == (s1 + c2)[i]);
    }
    assert forall|k: int| 0 <= k < c3.len() implies w[p2 - pos + k] == c3[k] by {
        let i = 3 + c2.len() + k;
        assert(w[i] == c3[k]);
    }
    assert(b[pos] == v.esm_class);
    assert(b[pos + 1] == v.protocol_id);
    assert(b[pos + 2] == v.priority_flag);
    assert(b.subrange(p1, p2) =~= c2);
    lemma_read_coctet_wire(
        b,
        p1,
        end,
        MAX_LENGTH_SCHEDULE_DELIVERY_TIME as int,
        v.schedule_delivery_time,
    );
    assert(b.subrange(p2, p3) =~= c3);
    lemma_read_coctet_wire(b, p2, end, MAX_LENGTH_VALIDITY_PERIOD as int, v.validity_period);
}

/// Parsing the trailing wire segment of a well-formed body yields its
/// field values back.
proof fn lemma_sm_tail_roundtrip(b: Seq<u8>, pos: int, end: int, v: SmDataV)
    requires
        v.wf(),
        0 <= pos,
        pos + v.tail_wire().len() <= end <= b.len(),
        b.subrange(pos, pos + v.tail_wire().len()) == v.tail_wire(),
    ensures
        spec_read_sm_tail(b, pos, end) == Ok::<_, ErrV>(
            (
                (
                    v.registered_delivery,
                    v.replace_if_present_flag,
                    v.data_coding,
                    v.sm_default_msg_id,
                    v.short_message,
                ),
                pos + v.tail_wire().len(),
            ),
        ),
{
    let w = v.tail_wire();
    let s1 = seq![
        v.registered_delivery,
        v.replace_if_present_flag,
        v.data_coding,
        v.sm_default_msg_id,
        v.short_message.len() as u8,
    ];
    let sm = v.short_message;
    let p1 = pos + 5;
    assert(w == s1 + sm);
    assert forall|j: int| 0 <= j < w.len() implies b[pos + j] == w[j] by {
        assert(b.subrange(pos, pos + w.len())[j] == b[pos + j]);
    }
    assert forall|k: int| 0 <= k < 5 implies w[k] == s1[k] by {
        assert((s1 + sm)[k] == s1[k]);
    }
    assert(b[pos + 0] == w[0] && w[0] == s1[0]);
    assert(b[pos + 1] == w[1] && w[1] == s1[1]);
    assert(b[pos + 2] == w[2] && w[2] == s1[2]);
    assert(b[pos + 3] == w[3] && w[3] == s1[3]);
    assert(b[pos + 4] == w[4] && w[4] == s1[4]);
    assert forall|k: int| 0 <= k < sm.len() implies w[5 + k] == sm[k] by {
        assert((s1 + sm)[5 + k] == sm[k]);
    }
    assert(b.subrange(p1, p1 + sm.len()) =~= sm);
    assert(v.short_message.len() as u8 as int == v.short_message.len());
}

/// Parsing the wire bytes of a well-formed short-message body, laid
/// down at `pos` with anything after them, yields the body back.
pub proof fn lemma_sm_data_roundtrip(b: Seq<u8>, pos: int, end: int, v: SmDataV)
    requires
        v.wf(),
        0 <= pos,
        pos + v.wire().len() <= end <= b.len(),
        b.subrange(pos, pos + v.wire().len()) == v.wire(),
    ensures
        spec_read_sm_data(b, pos, end) == Ok::<(SmDataV, int), ErrV>((v, pos + v.wire().len())),
{
    let h = v.head_wire();
    let m = v.mid_wire();
    let t = v.tail_wire();
    let p1 = pos + h.len();
    let p2 = p1 + m.len();
    let p3 = p2 + t.len();
    assert forall|j: int| 0 <= j < v.wire().len() implies b[pos + j] == v.wire()[j] by {
        assert(b.subrange(pos, pos + v.wire().len())[j] == b[pos + j]);
    }
    assert forall|k: int| 0 <= k < h.len() implies v.wire()[k] == h[k] by {
        assert((h + m)[k] == h[k]);
        assert(v.wire()[k] == (h + m)[k]);
    }
    assert forall|k: int| 0 <= k < m.len() implies v.wire()[h.len() + k] == m[k] by {
        assert((h + m)[h.len() + k] == m[k]);
        assert(v.wire()[h.len() + k] == (h + m)[h.len() + k]);
    }
    assert forall|k: int| 0 <= k < t.len() implies v.wire()[h.len() + m.len() + k] == t[k] by {
        assert(v.wire()[h.len() + m.len() + k] == t[k]);
    }
    assert(b.subrange(pos, p1) =~= h);
    lemma_sm_head_roundtrip(b, pos, end, v);
    assert(b.subrange(p1, p2) =~= m);
    lemma_sm_mid_roundtrip(b, p1, end, v);
    assert(b.subrange(p2, p3) =~= t);
    lemma_sm_tail_roundtrip(b, p2, end, v);
}

} // verus!
