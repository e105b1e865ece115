//! The structured error produced while parsing a PDU.
//!
//! An error is born in the innermost field parser with only a `body`
//! describing what went wrong; as it travels outward, the enclosing
//! parsers enrich it with the field name and with the header values
//! (`command_id`, `command_status`, `sequence_number`) once those are
//! known.

use vstd::prelude::*;

verus! {

/// What went wrong, without any enclosing context.
#[derive(Debug, PartialEq)]
pub enum PduParseErrorBody {
    /// A response PDU with a non-zero `command_status` carried body bytes.
    BodyNotAllowedWhenStatusIsNotZero(u32),
    /// The body ended before the declared `command_length` did.
    LengthLongerThanPdu(u32),
    /// `command_length` was above the maximum a PDU may have.
    LengthTooLong(u32),
    /// `command_length` was below the minimum a PDU must have.
    LengthTooShort(u32),
    /// A field had a length outside its domain-specific set of allowed
    /// lengths; carries the offending length and an explanation.
    IncorrectLength(u32, String),
    /// The input (or the PDU frame) ended in the middle of a field.
    NotEnoughBytes,
    /// A C-octet string filled its maximum length without a NUL.
    COctetStringTooLong(usize),
    /// A C-octet string ran out of input before its NUL terminator.
    COctetStringDoesNotEndWithNul,
    /// A C-octet string held a non-ASCII byte; carries how many leading
    /// bytes were valid ASCII.
    COctetStringNotAscii(u32),
    /// A request PDU carried a non-zero `command_status`.
    StatusIsNotZero(u32),
    /// The `command_id` is not one this implementation supports.
    UnknownCommandId,
    /// An underlying I/O failure outside the codec's own rules.
    OtherIoError,
}

/// The mathematical value of a `PduParseErrorBody`.
pub enum ErrBodyV {
    BodyNotAllowedWhenStatusIsNotZero(u32),
    LengthLongerThanPdu(u32),
    LengthTooLong(u32),
    LengthTooShort(u32),
    IncorrectLength(u32, Seq<char>),
    NotEnoughBytes,
    COctetStringTooLong(nat),
    COctetStringDoesNotEndWithNul,
    COctetStringNotAscii(u32),
    StatusIsNotZero(u32),
    UnknownCommandId,
    OtherIoError,
}

impl View for PduParseErrorBody {
    type V = ErrBodyV;

    open spec fn view(&self) -> ErrBodyV {
        match self {
            PduParseErrorBody::BodyNotAllowedWhenStatusIsNotZero(s) => (
                ErrBodyV::BodyNotAllowedWhenStatusIsNotZero(*s)
            ),
            PduParseErrorBody::LengthLongerThanPdu(l) => ErrBodyV::LengthLongerThanPdu(*l),
            PduParseErrorBody::LengthTooLong(l) => ErrBodyV::LengthTooLong(*l),
            PduParseErrorBody::LengthTooShort(l) => ErrBodyV::LengthTooShort(*l),
            PduParseErrorBody::IncorrectLength(l, m) => ErrBodyV::IncorrectLength(*l, m@),
            PduParseErrorBody::NotEnoughBytes => ErrBodyV::NotEnoughBytes,
            PduParseErrorBody::COctetStringTooLong(m) => ErrBodyV::COctetStringTooLong(*m as nat),
            PduParseErrorBody::COctetStringDoesNotEndWithNul => (
                ErrBodyV::COctetStringDoesNotEndWithNul
            ),
            PduParseErrorBody::COctetStringNotAscii(v) => ErrBodyV::COctetStringNotAscii(*v),
            PduParseErrorBody::StatusIsNotZero(s) => ErrBodyV::StatusIsNotZero(*s),
            PduParseErrorBody::UnknownCommandId => ErrBodyV::UnknownCommandId,
            PduParseErrorBody::OtherIoError => ErrBodyV::OtherIoError,
        }
    }
}

/// A parse error together with the context gathered so far.  A `None`
/// field is one whose value was not yet known when the error arose; it
/// renders as `UNKNOWN`.
#[derive(Debug, PartialEq)]
pub struct PduParseError {
    pub command_id: Option<u32>,
    pub command_status: Option<u32>,
    pub sequence_number: Option<u32>,
    pub field_name: Option<String>,
    pub body: PduParseErrorBody,
}

/// The mathematical value of a `PduParseError`.
pub struct ErrV {
    pub command_id: Option<u32>,
    pub command_status: Option<u32>,
    pub sequence_number: Option<u32>,
    pub field_name: Option<Seq<char>>,
    pub body: ErrBodyV,
}

impl ErrV {
    /// An error that carries no context yet.
    pub open spec fn plain(body: ErrBodyV) -> ErrV {
        ErrV {
            command_id: None,
            command_status: None,
            sequence_number: None,
            field_name: None,
            body: body,
        }
    }

    /// The same error with a field name attached.
    pub open spec fn with_field(self, field_name: Seq<char>) -> ErrV {
        ErrV { field_name: Some(field_name), ..self }
    }

    /// The same error with the header context replaced.
    pub open spec fn with_header(
        self,
        command_id: Option<u32>,
        command_status: Option<u32>,
        sequence_number: Option<u32>,
    ) -> ErrV {
        ErrV {
            command_id: command_id,
            command_status: command_status,
            sequence_number: sequence_number,
            ..self
        }
    }
}

impl View for PduParseError {
    type V = ErrV;

    open spec fn view(&self) -> ErrV {
        ErrV {
            command_id: self.command_id,
            command_status: self.command_status,
            sequence_number: self.sequence_number,
            field_name: match self.field_name {
                Some(ref s) => Some(s@),
                None => None,
            },
            body: self.body@,
        }
    }
}

impl PduParseError {
    /// An error with a body and no context.
    pub fn new(body: PduParseErrorBody) -> (r: PduParseError)
        ensures
            r@ == ErrV::plain(body@),
    {
        PduParseError {
            command_id: None,
            command_status: None,
            sequence_number: None,
            field_name: None,
            body,
        }
    }

    pub fn for_unknown_command_id(command_id: u32) -> (r: PduParseError)
        ensures
            r@ == ErrV::plain(ErrBodyV::UnknownCommandId).with_header(
                Some(command_id),
                None,
                None,
            ),
    {
        PduParseError {
            command_id: Some(command_id),
            command_status: None,
            sequence_number: None,
            field_name: None,
            body: PduParseErrorBody::UnknownCommandId,
        }
    }

    pub fn for_lengthlongerthanpdu(command_id: u32, command_length: u32) -> (r: PduParseError)
        ensures
            r@ == ErrV::plain(ErrBodyV::LengthLongerThanPdu(command_length)).with_header(
                Some(command_id),
                None,
                None,
            ),
    {
        PduParseError {
            command_id: Some(command_id),
            command_status: None,
            sequence_number: None,
            field_name: None,
            body: PduParseErrorBody::LengthLongerThanPdu(command_length),
        }
    }

    pub fn for_statusisnotzero(status: u32) -> (r: PduParseError)
        ensures
            r@ == ErrV::plain(ErrBodyV::StatusIsNotZero(status)),
    {
        PduParseError::new(PduParseErrorBody::StatusIsNotZero(status))
    }

    pub fn for_lengthtoolong(length: u32) -> (r: PduParseError)
        ensures
            r@ == ErrV::plain(ErrBodyV::LengthTooLong(length)),
    {
        PduParseError::new(PduParseErrorBody::LengthTooLong(length))
    }

    pub fn for_lengthtooshort(length: u32) -> (r: PduParseError)
        ensures
            r@ == ErrV::plain(ErrBodyV::LengthTooShort(length)),
    {
        PduParseError::new(PduParseErrorBody::LengthTooShort(length))
    }

    pub fn for_incorrect_length(length: u32, message: &str) -> (r: PduParseError)
        ensures
            r@ == ErrV::plain(ErrBodyV::IncorrectLength(length, message@)),
    {
        PduParseError::new(
            PduParseErrorBody::IncorrectLength(length, String::from_str(message)),
        )
    }

    pub fn for_bodynotallowedwhenstatusisnotzero(status: u32) -> (r: PduParseError)
        ensures
            r@ == ErrV::plain(ErrBodyV::BodyNotAllowedWhenStatusIsNotZero(status)),
    {
        PduParseError::new(PduParseErrorBody::BodyNotAllowedWhenStatusIsNotZero(status))
    }

    /// An error for a failed read: `unexpected_eof` says whether the
    /// read failed only because the input ended.
    pub fn for_ioerror(unexpected_eof: bool) -> (r: PduParseError)
        ensures
            unexpected_eof ==> r@ == ErrV::plain(ErrBodyV::NotEnoughBytes),
            !unexpected_eof ==> r@ == ErrV::plain(ErrBodyV::OtherIoError),
    {
        if unexpected_eof {
            PduParseError::new(PduParseErrorBody::NotEnoughBytes)
        } else {
            PduParseError::new(PduParseErrorBody::OtherIoError)
        }
    }

    pub fn into_with_command_id(self, command_id: u32) -> (r: PduParseError)
        ensures
            r@ == self@.with_header(Some(command_id), self@.command_status, self@.sequence_number),
    {
        PduParseError { command_id: Some(command_id), ..self }
    }

    pub fn into_with_field_name(self, field_name: &str) -> (r: PduParseError)
        ensures
            r@ == self@.with_field(field_name@),
    {
        PduParseError { field_name: Some(String::from_str(field_name)), ..self }
    }

    pub fn into_with_header(
        self,
        command_id: Option<u32>,
        command_status: Option<u32>,
        sequence_number: Option<u32>,
    ) -> (r: PduParseError)
        ensures
            r@ == self@.with_header(command_id, command_status, sequence_number),
    {
        PduParseError { command_id, command_status, sequence_number, ..self }
    }
}

/// A header value's rendering: eight hex digits, or `UNKNOWN` when the
/// value was never learned.
pub open spec fn spec_hex_opt(v: Option<u32>) -> Seq<char> {
    match v {
        Some(n) => crate::render::spec_hex8(n),
        None => "UNKNOWN"@,
    }
}

/// A field name's rendering: itself, or `UNKNOWN` when no field was
/// reached.
pub open spec fn spec_field_opt(v: Option<Seq<char>>) -> Seq<char> {
    match v {
        Some(s) => s,
        None => "UNKNOWN"@,
    }
}

/// The sentence describing an error body.
pub open spec fn spec_message(b: ErrBodyV) -> Seq<char> {
    match b {
        ErrBodyV::BodyNotAllowedWhenStatusIsNotZero(status) => (
            "PDU body must not be supplied when status is not zero, but command_status is "@
                + crate::render::spec_hex8(status) + "."@
        ),
        ErrBodyV::IncorrectLength(length, message) => "Length "@ + crate::render::spec_dec(
            length as nat,
        ) + " was incorrect: "@ + message,
        ErrBodyV::LengthLongerThanPdu(length) => (
            "Finished parsing PDU but its length ("@ + crate::render::spec_dec(length as nat)
                + ") suggested it was longer."@
        ),
        ErrBodyV::LengthTooLong(length) => "Length ("@ + crate::render::spec_dec(length as nat)
            + ") too long.  Max allowed is 70000 octets."@,
        ErrBodyV::LengthTooShort(length) => "Length ("@ + crate::render::spec_dec(length as nat)
            + ") too short.  Min allowed is 8 octets."@,
        ErrBodyV::NotEnoughBytes => (
            "Reached end of PDU length (or end of input) before finding all fields of the PDU."@
        ),
        ErrBodyV::COctetStringTooLong(max) => "Octet String is too long.  Max length is "@
            + crate::render::spec_dec(max) + ", including final zero byte."@,
        ErrBodyV::COctetStringDoesNotEndWithNul => (
            "C-Octet String does not end with the NULL character."@
        ),
        ErrBodyV::COctetStringNotAscii(valid_up_to) => (
            "Octet String is not ASCII (valid up to byte "@ + crate::render::spec_dec(
                valid_up_to as nat,
            ) + ")."@
        ),
        ErrBodyV::StatusIsNotZero(status) => "command_status must be 0, but was "@
            + crate::render::spec_hex8(status) + "."@,
        ErrBodyV::UnknownCommandId => "Supplied command_id is unknown."@,
        ErrBodyV::OtherIoError => "IO error."@,
    }
}

/// The stable rendering of an error: the header context, then the
/// message.
pub open spec fn spec_render(e: ErrV) -> Seq<char> {
    "Error parsing PDU (command_id="@ + spec_hex_opt(e.command_id) + ", command_status="@
        + spec_hex_opt(e.command_status) + ", sequence_number="@ + spec_hex_opt(e.sequence_number)
        + ", field_name="@ + spec_field_opt(e.field_name) + "): "@ + spec_message(e.body)
}

impl PduParseError {
    /// The error rendered as one line of text.
    pub fn to_string(&self) -> (r: String)
        ensures
            r@ == spec_render(self@),
    {
        let mut s = String::new();
        crate::render::push_str(&mut s, "Error parsing PDU (command_id=");
        push_hex_opt(&mut s, &self.command_id);
        crate::render::push_str(&mut s, ", command_status=");
        push_hex_opt(&mut s, &self.command_status);
        crate::render::push_str(&mut s, ", sequence_number=");
        push_hex_opt(&mut s, &self.sequence_number);
        crate::render::push_str(&mut s, ", field_name=");
        match &self.field_name {
            Some(f) => crate::render::push_str(&mut s, f.as_str()),
            None => crate::render::push_str(&mut s, "UNKNOWN"),
        }
        crate::render::push_str(&mut s, "): ");
        match &self.body {
            PduParseErrorBody::BodyNotAllowedWhenStatusIsNotZero(status) => {
                crate::render::push_str(
                    &mut s,
                    "PDU body must not be supplied when status is not zero, but command_status is ",
                );
                crate::render::push_hex8(&mut s, *status);
                crate::render::push_str(&mut s, ".");
            },
            PduParseErrorBody::IncorrectLength(length, message) => {
                crate::render::push_str(&mut s, "Length ");
                crate::render::push_dec(&mut s, *length as u64);
                crate::render::push_str(&mut s, " was incorrect: ");
                crate::render::push_str(&mut s, message.as_str());
            },
            PduParseErrorBody::LengthLongerThanPdu(length) => {
                crate::render::push_str(&mut s, "Finished parsing PDU but its length (");
                crate::render::push_dec(&mut s, *length as u64);
                crate::render::push_str(&mut s, ") suggested it was longer.");
            },
            PduParseErrorBody::LengthTooLong(length) => {
                crate::render::push_str(&mut s, "Length (");
                crate::render::push_dec(&mut s, *length as u64);
                crate::render::push_str(&mut s, ") too long.  Max allowed is 70000 octets.");
            },
            PduParseErrorBody::LengthTooShort(length) => {
                crate::render::push_str(&mut s, "Length (");
                crate::render::push_dec(&mut s, *length as u64);
                crate::render::push_str(&mut s, ") too short.  Min allowed is 8 octets.");
            },
            PduParseErrorBody::NotEnoughBytes => {
                crate::render::push_str(
                    &mut s,
                    "Reached end of PDU length (or end of input) before finding all fields of the PDU.",
                );
            },
            PduParseErrorBody::COctetStringTooLong(max) => {
                crate::render::push_str(&mut s, "Octet String is too long.  Max length is ");
                crate::render::push_dec(&mut s, *max as u64);
                crate::render::push_str(&mut s, ", including final zero byte.");
            },
            PduParseErrorBody::COctetStringDoesNotEndWithNul => {
                crate::render::push_str(
                    &mut s,
                    "C-Octet String does not end with the NULL character.",
                );
            },
            PduParseErrorBody::COctetStringNotAscii(valid_up_to) => {
                crate::render::push_str(&mut s, "Octet String is not ASCII (valid up to byte ");
                crate::render::push_dec(&mut s, *valid_up_to as u64);
                crate::render::push_str(&mut s, ").");
            },
            PduParseErrorBody::StatusIsNotZero(status) => {
                crate::render::push_str(&mut s, "command_status must be 0, but was ");
                crate::render::push_hex8(&mut s, *status);
                crate::render::push_str(&mut s, ".");
            },
            PduParseErrorBody::UnknownCommandId => {
                crate::render::push_str(&mut s, "Supplied command_id is unknown.");
            },
            PduParseErrorBody::OtherIoError => {
                crate::render::push_str(&mut s, "IO error.");
            },
        }
        proof {
            assert(s@ =~= spec_render(self@));
        }
        s
    }

    /// The SMPP command status a response to this error carries:
    /// length discipline breaks map to the invalid-command-length
    /// status, an unknown command id to the invalid-command-id status,
    /// and every field-level failure to the general system error.
    pub fn status(&self) -> (r: u32)
        ensures
            r == spec_error_status(self@.body),
    {
        match &self.body {
            PduParseErrorBody::LengthTooLong(_) => crate::status::ESME_RINVCMDLEN,
            PduParseErrorBody::LengthTooShort(_) => crate::status::ESME_RINVCMDLEN,
            PduParseErrorBody::LengthLongerThanPdu(_) => crate::status::ESME_RINVCMDLEN,
            PduParseErrorBody::UnknownCommandId => crate::status::ESME_RINVCMDID,
            _ => crate::status::ESME_RSYSERR,
        }
    }
}

/// The status code each kind of parse error maps to.
pub open spec fn spec_error_status(b: ErrBodyV) -> u32 {
    match b {
        ErrBodyV::LengthTooLong(_) => crate::status::ESME_RINVCMDLEN,
        ErrBodyV::LengthTooShort(_) => crate::status::ESME_RINVCMDLEN,
        ErrBodyV::LengthLongerThanPdu(_) => crate::status::ESME_RINVCMDLEN,
        ErrBodyV::UnknownCommandId => crate::status::ESME_RINVCMDID,
        _ => crate::status::ESME_RSYSERR,
    }
}

/// Render one optional header value.
fn push_hex_opt(s: &mut String, v: &Option<u32>)
    ensures
        final(s)@ == old(s)@ + spec_hex_opt(*v),
{
    match v {
        Some(n) => crate::render::push_hex8(s, *n),
        None => crate::render::push_str(s, "UNKNOWN"),
    }
}

/// If the supplied result is an error, enrich it with the supplied field name.
pub fn fld<T>(field_name: &str, res: Result<T, PduParseError>) -> (r: Result<T, PduParseError>)
    ensures
        match res {
            Ok(v) => r matches Ok(w) && w == v,
            Err(e) => r matches Err(e2) && e2@ == e@.with_field(field_name@),
        },
{
    match res {
        Ok(v) => Ok(v),
        Err(e) => Err(e.into_with_field_name(field_name)),
    }
}

} // verus!
