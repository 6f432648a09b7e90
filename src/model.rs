//! Protocols, tag addresses, tag values and the records of tags and links.

use vstd::prelude::*;
use vstd::string::*;

verus! {

/// Parity of a serial line.
#[derive(Clone, Copy, Debug, PartialEq, Eq, Structural)]
pub enum ParityType {
    Even,
    Odd,
    NoParity,
}

/// Modbus over TCP: where the device listens.
#[derive(Clone, Debug, PartialEq, Eq)]
pub struct ModbusTcpConfig {
    pub ip: String,
    pub port: usize,
}

impl ModbusTcpConfig {
    pub fn new(ip: String, port: usize) -> (r: Self)
        ensures
            r.ip == ip,
            r.port == port,
    {
        ModbusTcpConfig { ip, port }
    }
}

/// Modbus over a serial line; `timeout_ms` bounds every exchange.
#[derive(Clone, Debug, PartialEq, Eq)]
pub struct ModbusSerialConfig {
    pub com_port: String,
    pub baudrate: u32,
    pub parity: ParityType,
    pub timeout_ms: u64,
}

/// Siemens S7 (placeholder protocol).
#[derive(Clone, Debug, PartialEq, Eq)]
pub struct S7Config {
    pub ip: String,
    pub rack: usize,
    pub slot: usize,
}

/// EtherNet/IP (placeholder protocol).
#[derive(Clone, Copy, Debug, PartialEq, Eq, Structural)]
pub struct EipConfig {}

/// OPC-UA (placeholder protocol).
#[derive(Clone, Copy, Debug, PartialEq, Eq, Structural)]
pub struct OpcUaConfig {}

/// The protocol a link speaks, with its connection parameters.
#[derive(Clone, Debug, PartialEq, Eq)]
pub enum Protocol {
    ModbusTcp(ModbusTcpConfig),
    ModbusSerial(ModbusSerialConfig),
    S7(S7Config),
    Eip(EipConfig),
    OpcUa(OpcUaConfig),
}

/// The four Modbus tables, each with a register number.
#[derive(Clone, Copy, Debug, PartialEq, Eq, Structural)]
pub enum ModbusRegister {
    Holding(u16),
    Input(u16),
    Coil(u16),
    Status(u16),
}

/// An S7 data-block address.
#[derive(Clone, Copy, Debug, PartialEq, Eq, Structural)]
pub struct S7Addr {
    pub db: usize,
    pub offset: usize,
    pub start_bit: usize,
}

/// Where a tag lives on its device; the variant names a protocol family.
#[derive(Clone, Copy, Debug, PartialEq, Eq, Structural)]
pub enum TagAddress {
    ModbusAddr(ModbusRegister),
    S7Addr(S7Addr),
    EipAddr,
    OpcUaAddr,
}

/// A typed tag value. The variant fixes the wire width: `Int` is one 16-bit
/// register, `Dint` and `Real` are two. `Real` holds the IEEE-754 single
/// precision bit pattern of the number.
#[derive(Clone, Copy, Debug, PartialEq, Eq, Structural)]
pub enum TagValue {
    Int(u16),
    Dint(u32),
    Real(u32),
    Bit(bool),
}

/// Health of one tag.
#[derive(Clone, Debug, PartialEq, Eq)]
pub enum TagStatus {
    Normal,
    Error(String),
    Warn,
    Alarm,
}

/// Health of one link.
#[derive(Clone, Debug, PartialEq, Eq)]
pub enum LinkStatus {
    Normal,
    NeedsToReconnect,
    Error(String),
}

/// Protocol family of a session or of an address.
#[derive(Clone, Copy, Debug, PartialEq, Eq, Structural)]
pub enum Family {
    Modbus,
    S7,
    Eip,
    OpcUa,
}

/// The kinds of failure of the engine.
#[derive(Clone, Debug, PartialEq, Eq)]
pub enum CodecError {
    /// The tag's address belongs to another protocol family than the session.
    AddressIncompatible,
    /// The value kind does not fit the tag or the register table.
    ValueTypeMismatch,
    /// A placeholder path: coil and status tables, protocols other than Modbus/TCP.
    Unimplemented,
    /// The device or the transport failed; the text says how.
    TransportFailure(String),
    /// No link or tag has the requested id.
    NotFound,
}

/// What a `CodecError` says, with the text of a transport failure.
pub enum Fault {
    AddressIncompatible,
    ValueTypeMismatch,
    Unimplemented,
    TransportFailure(Seq<char>),
    NotFound,
}

impl View for CodecError {
    type V = Fault;

    open spec fn view(&self) -> Fault {
        match self {
            CodecError::AddressIncompatible => Fault::AddressIncompatible,
            CodecError::ValueTypeMismatch => Fault::ValueTypeMismatch,
            CodecError::Unimplemented => Fault::Unimplemented,
            CodecError::TransportFailure(m) => Fault::TransportFailure(m@),
            CodecError::NotFound => Fault::NotFound,
        }
    }
}

impl Fault {
    /// The human-readable text of a failure.
    pub open spec fn message(self) -> Seq<char> {
        match self {
            Fault::AddressIncompatible => "Link context not compatible with tag address."@,
            Fault::ValueTypeMismatch => "Value type is incompatible with register type."@,
            Fault::Unimplemented => "Not implemented for this protocol or register type."@,
            Fault::TransportFailure(m) => m,
            Fault::NotFound => "Not found."@,
        }
    }
}

impl CodecError {
    /// The human-readable text of this failure.
    pub fn message(&self) -> (r: String)
        ensures
            r@ == self@.message(),
    {
        match self {
            CodecError::AddressIncompatible => String::from_str(
                "Link context not compatible with tag address.",
            ),
            CodecError::ValueTypeMismatch => String::from_str(
                "Value type is incompatible with register type.",
            ),
            CodecError::Unimplemented => String::from_str(
                "Not implemented for this protocol or register type.",
            ),
            CodecError::TransportFailure(m) => m.clone(),
            CodecError::NotFound => String::from_str("Not found."),
        }
    }
}

impl TagStatus {
    /// The status is `Error` with a message whose text is `msg`.
    pub open spec fn is_error_with(&self, msg: Seq<char>) -> bool {
        match self {
            TagStatus::Error(m) => m@ == msg,
            _ => false,
        }
    }
}

impl LinkStatus {
    /// The status is `Error` with a message whose text is `msg`.
    pub open spec fn is_error_with(&self, msg: Seq<char>) -> bool {
        match self {
            LinkStatus::Error(m) => m@ == msg,
            _ => false,
        }
    }
}

impl TagAddress {
    pub open spec fn family_spec(&self) -> Family {
        match self {
            TagAddress::ModbusAddr(_) => Family::Modbus,
            TagAddress::S7Addr(_) => Family::S7,
            TagAddress::EipAddr => Family::Eip,
            TagAddress::OpcUaAddr => Family::OpcUa,
        }
    }

    /// The protocol family that this address belongs to.
    #[verifier::when_used_as_spec(family_spec)]
    pub fn family(&self) -> (r: Family)
        ensures
            r == self.family_spec(),
    {
        match self {
            TagAddress::ModbusAddr(_) => Family::Modbus,
            TagAddress::S7Addr(_) => Family::S7,
            TagAddress::EipAddr => Family::Eip,
            TagAddress::OpcUaAddr => Family::OpcUa,
        }
    }
}

impl Protocol {
    /// Same variant and same parameters, text compared by its characters.
    pub open spec fn same_as(self, other: Protocol) -> bool {
        match (self, other) {
            (Protocol::ModbusTcp(a), Protocol::ModbusTcp(b)) => a.ip@ == b.ip@ && a.port == b.port,
            (Protocol::ModbusSerial(a), Protocol::ModbusSerial(b)) => {
                &&& a.com_port@ == b.com_port@
                &&& a.baudrate == b.baudrate
                &&& a.parity == b.parity
                &&& a.timeout_ms == b.timeout_ms
            },
            (Protocol::S7(a), Protocol::S7(b)) => a.ip@ == b.ip@ && a.rack == b.rack && a.slot
                == b.slot,
            (Protocol::Eip(_), Protocol::Eip(_)) => true,
            (Protocol::OpcUa(_), Protocol::OpcUa(_)) => true,
            _ => false,
        }
    }

    /// Whether two protocol settings are the same.
    pub fn same(&self, other: &Protocol) -> (r: bool)
        ensures
            r == self.same_as(*other),
    {
        match (self, other) {
            (Protocol::ModbusTcp(a), Protocol::ModbusTcp(b)) => a.ip == b.ip && a.port == b.port,
            (Protocol::ModbusSerial(a), Protocol::ModbusSerial(b)) => {
                a.com_port == b.com_port && a.baudrate == b.baudrate && a.parity == b.parity
                    && a.timeout_ms == b.timeout_ms
            },
            (Protocol::S7(a), Protocol::S7(b)) => a.ip == b.ip && a.rack == b.rack && a.slot
                == b.slot,
            (Protocol::Eip(_), Protocol::Eip(_)) => true,
            (Protocol::OpcUa(_), Protocol::OpcUa(_)) => true,
            _ => false,
        }
    }
}

impl TagStatus {
    /// Same variant, messages compared by their characters.
    pub open spec fn same_as(self, other: TagStatus) -> bool {
        match (self, other) {
            (TagStatus::Normal, TagStatus::Normal) => true,
            (TagStatus::Error(a), TagStatus::Error(b)) => a@ == b@,
            (TagStatus::Warn, TagStatus::Warn) => true,
            (TagStatus::Alarm, TagStatus::Alarm) => true,
            _ => false,
        }
    }

    /// Whether two tag statuses are the same.
    pub fn same(&self, other: &TagStatus) -> (r: bool)
        ensures
            r == self.same_as(*other),
    {
        match (self, other) {
            (TagStatus::Normal, TagStatus::Normal) => true,
            (TagStatus::Error(a), TagStatus::Error(b)) => *a == *b,
            (TagStatus::Warn, TagStatus::Warn) => true,
            (TagStatus::Alarm, TagStatus::Alarm) => true,
            _ => false,
        }
    }
}

impl LinkStatus {
    /// Same variant, messages compared by their characters.
    pub open spec fn same_as(self, other: LinkStatus) -> bool {
        match (self, other) {
            (LinkStatus::Normal, LinkStatus::Normal) => true,
            (LinkStatus::NeedsToReconnect, LinkStatus::NeedsToReconnect) => true,
            (LinkStatus::Error(a), LinkStatus::Error(b)) => a@ == b@,
            _ => false,
        }
    }

    /// Whether two link statuses are the same.
    pub fn same(&self, other: &LinkStatus) -> (r: bool)
        ensures
            r == self.same_as(*other),
    {
        match (self, other) {
            (LinkStatus::Normal, LinkStatus::Normal) => true,
            (LinkStatus::NeedsToReconnect, LinkStatus::NeedsToReconnect) => true,
            (LinkStatus::Error(a), LinkStatus::Error(b)) => *a == *b,
            _ => false,
        }
    }
}

} // verus!
