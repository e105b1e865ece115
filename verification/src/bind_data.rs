//! The shared body of the three bind requests: `bind_transmitter`,
//! `bind_receiver` and `bind_transceiver` carry the same fields and
//! differ only in their command ids.

use vstd::prelude::*;
use vstd::string::StringSliceAdditionalSpecFns;

use crate::formats::{
    coctet_wire, lemma_read_coctet_wire, spec_co_from_str, spec_read_co_field, spec_read_u8_field,
    COctetString, Integer1,
};
use crate::pduparseerror::{fld, ErrV, PduParseError};

verus! {

pub const MAX_LENGTH_SYSTEM_ID: usize = 16;

pub const MAX_LENGTH_PASSWORD: usize = 9;

pub const MAX_LENGTH_SYSTEM_TYPE: usize = 13;

pub const MAX_LENGTH_ADDRESS_RANGE: usize = 41;

/// The fields of a bind request.
#[derive(Debug, PartialEq, Clone)]
pub struct BindData {
    pub system_id: COctetString,
    pub password: COctetString,
    pub system_type: COctetString,
    pub interface_version: Integer1,
    pub addr_ton: Integer1,
    pub addr_npi: Integer1,
    pub address_range: COctetString,
}

/// The mathematical value of a bind request body.
pub struct BindDataV {
    pub system_id: Seq<u8>,
    pub password: Seq<u8>,
    pub system_type: Seq<u8>,
    pub interface_version: u8,
    pub addr_ton: u8,
    pub addr_npi: u8,
    pub address_range: Seq<u8>,
}

impl View for BindData {
    type V = BindDataV;

    open spec fn view(&self) -> BindDataV {
        BindDataV {
            system_id: self.system_id@,
            password: self.password@,
            system_type: self.system_type@,
            interface_version: self.interface_version.value,
            addr_ton: self.addr_ton.value,
            addr_npi: self.addr_npi.value,
            address_range: self.address_range@,
        }
    }
}

impl BindDataV {
    /// Every string field holds acceptable bytes and fits its maximum.
    pub open spec fn wf(self) -> bool {
        &&& crate::formats::coctet_bytes_ok(self.system_id)
        &&& self.system_id.len() + 1 <= MAX_LENGTH_SYSTEM_ID
        &&& crate::formats::coctet_bytes_ok(self.password)
        &&& self.password.len() + 1 <= MAX_LENGTH_PASSWORD
        &&& crate::formats::coctet_bytes_ok(self.system_type)
        &&& self.system_type.len() + 1 <= MAX_LENGTH_SYSTEM_TYPE
        &&& crate::formats::coctet_bytes_ok(self.address_range)
        &&& self.address_range.len() + 1 <= MAX_LENGTH_ADDRESS_RANGE
    }

    /// The bytes this body occupies on the wire.
    pub open spec fn wire(self) -> Seq<u8> {
        coctet_wire(self.system_id) + coctet_wire(self.password) + coctet_wire(self.system_type)
            + seq![self.interface_version, self.addr_ton, self.addr_npi] + coctet_wire(
            self.address_range,
        )
    }
}

/// Build a bind body from its field values, validating each in order.
pub open spec fn spec_new_bind_data(
    system_id: Seq<u8>,
    password: Seq<u8>,
    system_type: Seq<u8>,
    interface_version: u8,
    addr_ton: u8,
    addr_npi: u8,
    address_range: Seq<u8>,
) -> Result<BindDataV, ErrV> {
    match spec_co_from_str(system_id, MAX_LENGTH_SYSTEM_ID as int, "system_id"@) {
        Err(e) => Err(e),
        Ok(sid) => match spec_co_from_str(password, MAX_LENGTH_PASSWORD as int, "password"@) {
            Err(e) => Err(e),
            Ok(pw) => match spec_co_from_str(
                system_type,
                MAX_LENGTH_SYSTEM_TYPE as int,
                "system_type"@,
            ) {
                Err(e) => Err(e),
                Ok(st) => match spec_co_from_str(
                    address_range,
                    MAX_LENGTH_ADDRESS_RANGE as int,
                    "address_range"@,
                ) {
                    Err(e) => Err(e),
                    Ok(ar) => Ok(
                        BindDataV {
                            system_id: sid,
                            password: pw,
                            system_type: st,
                            interface_version,
                            addr_ton,
                            addr_npi,
                            address_range: ar,
                        },
                    ),
                },
            },
        },
    }
}

/// Parse a bind body from `[pos, end)`: the three leading strings, the
/// three one-octet integers, then the address range.
pub open spec fn spec_read_bind_data(b: Seq<u8>, pos: int, end: int) -> Result<
    (BindDataV, int),
    ErrV,
> {
    match spec_read_co_field(b, pos, end, MAX_LENGTH_SYSTEM_ID as int, "system_id"@) {
        Err(e) => Err(e),
        Ok((sid, p1)) => match spec_read_co_field(
            b,
            p1,
            end,
            MAX_LENGTH_PASSWORD as int,
            "password"@,
        ) {
            Err(e) => Err(e),
            Ok((pw, p2)) => match spec_read_co_field(
                b,
                p2,
                end,
                MAX_LENGTH_SYSTEM_TYPE as int,
                "system_type"@,
            ) {
                Err(e) => Err(e),
                Ok((st, p3)) => match spec_read_u8_field(b, p3, end, "interface_version"@) {
                    Err(e) => Err(e),
                    Ok((iv, p4)) => match spec_read_u8_field(b, p4, end, "addr_ton"@) {
                        Err(e) => Err(e),
                        Ok((ton, p5)) => match spec_read_u8_field(b, p5, end, "addr_npi"@) {
                            Err(e) => Err(e),
                            Ok((npi, p6)) => match spec_read_co_field(
                                b,
                                p6,
                                end,
                                MAX_LENGTH_ADDRESS_RANGE as int,
                                "address_range"@,
                            ) {
                                Err(e) => Err(e),
                                Ok((ar, p7)) => Ok(
                                    (
                                        BindDataV {
                                            system_id: sid,
                                            password: pw,
                                            system_type: st,
                                            interface_version: iv,
                                            addr_ton: ton,
                                            addr_npi: npi,
                                            address_range: ar,
                                        },
                                        p7,
                                    ),
                                ),
                            },
                        },
                    },
                },
            },
        },
    }
}

impl BindData {
    /// Build a bind body, rejecting any field a bind request could not
    /// carry.
    pub fn new(
        system_id: &str,
        password: &str,
        system_type: &str,
        interface_version: u8,
        addr_ton: u8,
        addr_npi: u8,
        address_range: &str,
    ) -> (r: Result<BindData, PduParseError>)
        ensures
            ({
                let sr = spec_new_bind_data(
                    system_id.spec_bytes(),
                    password.spec_bytes(),
                    system_type.spec_bytes(),
                    interface_version,
                    addr_ton,
                    addr_npi,
                    address_range.spec_bytes(),
                );
                match r {
                    Ok(v) => sr matches Ok(w) && v@ == w && v@.wf(),
                    Err(e) => sr matches Err(e2) && e@ == e2,
                }
            }),
    {
        proof {
            crate::formats::lemma_find_bad_none(system_id.spec_bytes(), 0);
            crate::formats::lemma_find_bad_none(password.spec_bytes(), 0);
            crate::formats::lemma_find_bad_none(system_type.spec_bytes(), 0);
            crate::formats::lemma_find_bad_none(address_range.spec_bytes(), 0);
        }
        let system_id = fld(
            "system_id",
            COctetString::from_str(system_id, MAX_LENGTH_SYSTEM_ID),
        )?;
        let password = fld("password", COctetString::from_str(password, MAX_LENGTH_PASSWORD))?;
        let system_type = fld(
            "system_type",
            COctetString::from_str(system_type, MAX_LENGTH_SYSTEM_TYPE),
        )?;
        let address_range = fld(
            "address_range",
            COctetString::from_str(address_range, MAX_LENGTH_ADDRESS_RANGE),
        )?;
        Ok(
            BindData {
                system_id,
                password,
                system_type,
                interface_version: Integer1::new(interface_version),
                addr_ton: Integer1::new(addr_ton),
                addr_npi: Integer1::new(addr_npi),
                address_range,
            },
        )
    }

    /// Parse a bind body from `[pos, end)` of `bytes`.
    pub fn parse(bytes: &[u8], pos: usize, end: usize) -> (r: Result<
        (BindData, usize),
        PduParseError,
    >)
        requires
            pos <= end <= bytes@.len(),
        ensures
            ({
                let sr = spec_read_bind_data(bytes@, pos as int, end as int);
                match r {
                    Ok((v, n)) => sr matches Ok((w, n2)) && v@ == w && n == n2 && v@.wf() && pos
                        <= n <= end,
                    Err(e) => sr matches Err(e2) && e@ == e2,
                }
            }),
    {
        let (system_id, p1) = fld(
            "system_id",
            COctetString::read(bytes, pos, end, MAX_LENGTH_SYSTEM_ID),
        )?;
        let (password, p2) = fld(
            "password",
            COctetString::read(bytes, p1, end, MAX_LENGTH_PASSWORD),
        )?;
        let (system_type, p3) = fld(
            "system_type",
            COctetString::read(bytes, p2, end, MAX_LENGTH_SYSTEM_TYPE),
        )?;
        let (interface_version, p4) = fld("interface_version", Integer1::read(bytes, p3, end))?;
        let (addr_ton, p5) = fld("addr_ton", Integer1::read(bytes, p4, end))?;
        let (addr_npi, p6) = fld("addr_npi", Integer1::read(bytes, p5, end))?;
        let (address_range, p7) = fld(
            "address_range",
            COctetString::read(bytes, p6, end, MAX_LENGTH_ADDRESS_RANGE),
        )?;
        Ok(
            (
                BindData {
                    system_id,
                    password,
                    system_type,
                    interface_version,
                    addr_ton,
                    addr_npi,
                    address_range,
                },
                p7,
            ),
        )
    }

    /// Append this body's wire bytes.
    pub fn write(&self, buf: &mut Vec<u8>)
        ensures
            final(buf)@ == old(buf)@ + self@.wire(),
    {
        self.system_id.write(buf);
        self.password.write(buf);
        self.system_type.write(buf);
        self.interface_version.write(buf);
        self.addr_ton.write(buf);
        self.addr_npi.write(buf);
        self.address_range.write(buf);
        assert(buf@ =~= old(buf)@ + self@.wire());
    }
}

/// A bind body read touches only its window: reading from two buffers
/// that agree on `[pos, end)` yields the same outcome.
pub proof fn lemma_read_bind_data_congruent(b1: Seq<u8>, b2: Seq<u8>, pos: int, end: int)
    requires
        0 <= pos <= end,
        end <= b1.len(),
        end <= b2.len(),
        forall|i: int| pos <= i < end ==> b1[i] == b2[i],
    ensures
        spec_read_bind_data(b1, pos, end) == spec_read_bind_data(b2, pos, end),
{
    crate::formats::lemma_read_coctet_congruent(b1, b2, pos, end, MAX_LENGTH_SYSTEM_ID as int);
    crate::formats::lemma_read_coctet_bounds(b1, pos, end, MAX_LENGTH_SYSTEM_ID as int);
    match crate::formats::spec_read_coctet(b1, pos, end, MAX_LENGTH_SYSTEM_ID as int) {
        crate::formats::CoReadV::Value(_, p1) => {
            crate::formats::lemma_read_coctet_congruent(b1, b2, p1, end, MAX_LENGTH_PASSWORD as int);
            crate::formats::lemma_read_coctet_bounds(b1, p1, end, MAX_LENGTH_PASSWORD as int);
            match crate::formats::spec_read_coctet(b1, p1, end, MAX_LENGTH_PASSWORD as int) {
                crate::formats::CoReadV::Value(_, p2) => {
                    crate::formats::lemma_read_coctet_congruent(
                        b1,
                        b2,
                        p2,
                        end,
                        MAX_LENGTH_SYSTEM_TYPE as int,
                    );
                    crate::formats::lemma_read_coctet_bounds(
                        b1,
                        p2,
                        end,
                        MAX_LENGTH_SYSTEM_TYPE as int,
                    );
                    match crate::formats::spec_read_coctet(
                        b1,
                        p2,
                        end,
                        MAX_LENGTH_SYSTEM_TYPE as int,
                    ) {
                        crate::formats::CoReadV::Value(_, p3) => {
                            if p3 + 3 <= end {
                                crate::formats::lemma_read_coctet_congruent(
                                    b1,
                                    b2,
                                    p3 + 3,
                                    end,
                                    MAX_LENGTH_ADDRESS_RANGE as int,
                                );
                            }
                        },
                        _ => {
                        },
                    }
                },
                _ => {
                },
            }
        },
        _ => {
        },
    }
}

/// Parsing the wire bytes of a well-formed bind body, laid down at
/// `pos` with anything after them, yields the body back.
pub proof fn lemma_bind_data_roundtrip(b: Seq<u8>, pos: int, end: int, v: BindDataV)
    requires
        v.wf(),
        0 <= pos,
        pos + v.wire().len() <= end <= b.len(),
        b.subrange(pos, pos + v.wire().len()) == v.wire(),
    ensures
        spec_read_bind_data(b, pos, end) == Ok::<(BindDataV, int), ErrV>(
            (v, pos + v.wire().len()),
        ),
{
    let w = v.wire();
    let p1 = pos + v.system_id.len() + 1;
    let p2 = p1 + v.password.len() + 1;
    let p3 = p2 + v.system_type.len() + 1;
    let p4 = p3 + 1;
    let p5 = p4 + 1;
    let p6 = p5 + 1;
    let p7 = p6 + v.address_range.len() + 1;
    assert(p7 == pos + w.len());
    let c1 = coctet_wire(v.system_id);
    let c2 = coctet_wire(v.password);
    let c3 = coctet_wire(v.system_type);
    let c4 = seq![v.interface_version, v.addr_ton, v.addr_npi];
    let c5 = coctet_wire(v.address_range);
    assert(w == c1 + c2 + c3 + c4 + c5);
    assert forall|j: int| 0 <= j < w.len() implies b[pos + j] == w[j] by {
        assert(b.subrange(pos, pos + w.len())[j] == b[pos + j]);
    }
    assert forall|k: int| 0 <= k < c1.len() implies w[k] == c1[k] by {
        assert((c1 + c2)[k] == c1[k]);
        assert((c1 + c2 + c3)[k] == (c1 + c2)[k]);
        assert((c1 + c2 + c3 + c4)[k] == (c1 + c2 + c3)[k]);
        assert(w[k] == (c1 + c2 + c3 + c4)[k]);
    }
    assert forall|k: int| 0 <= k < c2.len() implies w[p1 - pos + k] == c2[k] by {
        assert((c1 + c2)[c1.len() + k] == c2[k]);
        assert((c1 + c2 + c3)[c1.len() + k] == (c1 + c2)[c1.len() + k]);
        assert((c1 + c2 + c3 + c4)[c1.len() + k] == (c1 + c2 + c3)[c1.len() + k]);
        assert(w[c1.len() + k] == (c1 + c2 + c3 + c4)[c1.len() + k]);
    }
    assert forall|k: int| 0 <= k < c3.len() implies w[p2 - pos + k] == c3[k] by {
        let i = c1.len() + c2.len() + k;
        assert((c1 + c2 + c3)[i] == c3[k]);
        assert((c1 + c2 + c3 + c4)[i] == (c1 + c2 + c3)[i]);
        assert(w[i] == (c1 + c2 + c3 + c4)[i]);
    }
    assert forall|k: int| 0 <= k < 3 implies w[p3 - pos + k] == c4[k] by {
        let i = c1.len() + c2.len() + c3.len() + k;
        assert((c1 + c2 + c3 + c4)[i] == c4[k]);
        assert(w[i] == (c1 + c2 + c3 + c4)[i]);
    }
    assert forall|k: int| 0 <= k < c5.len() implies w[p6 - pos + k] == c5[k] by {
        let i = c1.len() + c2.len() + c3.len() + 3 + k;
        assert(w[i] == c5[k]);
    }
    assert(b.subrange(pos, p1) =~= coctet_wire(v.system_id));
    lemma_read_coctet_wire(b, pos, end, MAX_LENGTH_SYSTEM_ID as int, v.system_id);
    assert(b.subrange(p1, p2) =~= coctet_wire(v.password));
    lemma_read_coctet_wire(b, p1, end, MAX_LENGTH_PASSWORD as int, v.password);
    assert(b.subrange(p2, p3) =~= coctet_wire(v.system_type));
    lemma_read_coctet_wire(b, p2, end, MAX_LENGTH_SYSTEM_TYPE as int, v.system_type);
    assert(b[p3] == v.interface_version);
    assert(b[p4] == v.addr_ton);
    assert(b[p5] == v.addr_npi);
    assert(b.subrange(p6, p7) =~= coctet_wire(v.address_range));
    lemma_read_coctet_wire(b, p6, end, MAX_LENGTH_ADDRESS_RANGE as int, v.address_range);
}

} // verus!
