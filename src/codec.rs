//! The register codec: 32-bit values split over two 16-bit registers.

use vstd::prelude::*;
use crate::model::{Family, Fault, ModbusRegister, TagAddress, TagValue, CodecError};

verus! {

/// The 32-bit pattern whose high half is `hi` and low half is `lo`.
pub open spec fn combine_spec(hi: u16, lo: u16) -> u32 {
    ((hi as u32) * 0x10000 + lo as u32) as u32
}

/// Joins two registers, high word first: `(hi << 16) | lo`.
#[verifier::when_used_as_spec(combine_spec)]
pub fn combine_registers(hi: u16, lo: u16) -> (r: u32)
    ensures
        r == combine_spec(hi, lo),
{
    let r: u32 = ((hi as u32) << 16u32) | (lo as u32);
    assert(((hi as u32) << 16u32) | (lo as u32) == (hi as u32) * 0x10000 + lo as u32)
        by (bit_vector);
    r
}

pub open spec fn high_word(v: u32) -> u16 {
    (v / 0x10000) as u16
}

pub open spec fn low_word(v: u32) -> u16 {
    (v % 0x10000) as u16
}

/// Splits a 32-bit pattern into its high and low 16-bit words.
pub fn split_register_pair(v: u32) -> (r: (u16, u16))
    ensures
        r.0 == high_word(v),
        r.1 == low_word(v),
{
    let hi: u16 = (v >> 16u32) as u16;
    let lo: u16 = (v & 0xffffu32) as u16;
    assert((v >> 16u32) == v / 0x10000) by (bit_vector);
    assert((v & 0xffffu32) == v % 0x10000) by (bit_vector);
    (hi, lo)
}

/// Joining the two words of a split gives the value back.
pub proof fn lemma_split_combine(v: u32)
    ensures
        combine_spec(high_word(v), low_word(v)) == v,
{
}

/// Splitting a joined pair gives the two words back.
pub proof fn lemma_combine_split(hi: u16, lo: u16)
    ensures
        high_word(combine_spec(hi, lo)) == hi,
        low_word(combine_spec(hi, lo)) == lo,
{
}

} // verus!

verus! {

/// The register table that a read or a write goes to.
#[derive(Clone, Copy, Debug, PartialEq, Eq, Structural)]
pub enum RegisterTable {
    Holding,
    Input,
}

/// A read of `count` consecutive registers from `start` in `table`.
#[derive(Clone, Copy, Debug, PartialEq, Eq, Structural)]
pub struct RegisterRead {
    pub table: RegisterTable,
    pub start: u16,
    pub count: u16,
}

/// A write to the device: one register, or two consecutive registers with
/// the high word first.
#[derive(Clone, Copy, Debug, PartialEq, Eq, Structural)]
pub enum RegisterWrite {
    Single { register: u16, word: u16 },
    Pair { start: u16, hi: u16, lo: u16 },
}

/// What a session answered to a register read: the words, or the text of a
/// transport failure.
pub type ReadReply = Result<Vec<u16>, String>;

/// Number of 16-bit registers that a value of this kind occupies.
pub open spec fn register_width(value: TagValue) -> nat {
    match value {
        TagValue::Int(_) => 1,
        TagValue::Dint(_) | TagValue::Real(_) => 2,
        TagValue::Bit(_) => 0,
    }
}

/// Text of the failure when a device answers with too few registers.
pub open spec fn short_reply_message() -> Seq<char> {
    "Device answered with too few registers."@
}

/// Which registers a read of a tag touches, or why it cannot be done.
/// Family mismatch is checked first, then the placeholder protocols and
/// tables, then the value kind.
pub open spec fn read_plan_spec(session: Family, address: TagAddress, value: TagValue) -> Result<
    RegisterRead,
    Fault,
> {
    if address.family() != session {
        Err(Fault::AddressIncompatible)
    } else {
        match address {
            TagAddress::ModbusAddr(reg) => {
                let (table, start) = match reg {
                    ModbusRegister::Holding(n) => (Some(RegisterTable::Holding), n),
                    ModbusRegister::Input(n) => (Some(RegisterTable::Input), n),
                    ModbusRegister::Coil(n) => (None, n),
                    ModbusRegister::Status(n) => (None, n),
                };
                match table {
                    None => Err(Fault::Unimplemented),
                    Some(t) => match value {
                        TagValue::Bit(_) => Err(Fault::ValueTypeMismatch),
                        _ => Ok(RegisterRead { table: t, start, count: register_width(value) as u16 }),
                    },
                }
            },
            _ => Err(Fault::Unimplemented),
        }
    }
}

/// The value of the same kind as `value` that the registers `words` encode
/// (high word first for two-register kinds); `None` when too few words came.
pub open spec fn decode_words(value: TagValue, words: Seq<u16>) -> Option<TagValue> {
    if words.len() < register_width(value) {
        None
    } else {
        match value {
            TagValue::Int(_) => Some(TagValue::Int(words[0])),
            TagValue::Dint(_) => Some(TagValue::Dint(combine_spec(words[0], words[1]))),
            TagValue::Real(_) => Some(TagValue::Real(combine_spec(words[0], words[1]))),
            TagValue::Bit(_) => None,
        }
    }
}

/// The registers that encode `value`, high word first.
pub open spec fn encode_words(value: TagValue) -> Seq<u16> {
    match value {
        TagValue::Int(v) => seq![v],
        TagValue::Dint(v) | TagValue::Real(v) => seq![high_word(v), low_word(v)],
        TagValue::Bit(_) => Seq::empty(),
    }
}

/// The words of a reply, or the text of its failure.
pub open spec fn reply_view(reply: ReadReply) -> Result<Seq<u16>, Seq<char>> {
    match reply {
        Ok(words) => Ok(words@),
        Err(m) => Err(m@),
    }
}

/// The new value of a tag read through `session` with the answer `reply`,
/// or the failure.
pub open spec fn read_outcome(
    session: Family,
    address: TagAddress,
    value: TagValue,
    reply: Result<Seq<u16>, Seq<char>>,
) -> Result<TagValue, Fault> {
    match read_plan_spec(session, address, value) {
        Err(f) => Err(f),
        Ok(_) => match reply {
            Err(m) => Err(Fault::TransportFailure(m)),
            Ok(words) => match decode_words(value, words) {
                Some(v) => Ok(v),
                None => Err(Fault::TransportFailure(short_reply_message())),
            },
        },
    }
}

/// The register write that stores `new_value` into a tag currently holding
/// `value`, or why it cannot be done.
pub open spec fn write_plan_spec(
    session: Family,
    address: TagAddress,
    value: TagValue,
    new_value: TagValue,
) -> Result<RegisterWrite, Fault> {
    if address.family() != session {
        Err(Fault::AddressIncompatible)
    } else {
        match address {
            TagAddress::ModbusAddr(reg) => {
                let (writable, start) = match reg {
                    ModbusRegister::Holding(n) => (true, n),
                    ModbusRegister::Input(n) => (true, n),
                    ModbusRegister::Coil(n) => (false, n),
                    ModbusRegister::Status(n) => (false, n),
                };
                if !writable {
                    Err(Fault::Unimplemented)
                } else {
                    match (value, new_value) {
                        (TagValue::Int(_), TagValue::Int(v)) => Ok(
                            RegisterWrite::Single { register: start, word: v },
                        ),
                        (TagValue::Dint(_), TagValue::Dint(v)) => Ok(
                            RegisterWrite::Pair { start, hi: high_word(v), lo: low_word(v) },
                        ),
                        (TagValue::Real(_), TagValue::Real(v)) => Ok(
                            RegisterWrite::Pair { start, hi: high_word(v), lo: low_word(v) },
                        ),
                        _ => Err(Fault::ValueTypeMismatch),
                    }
                }
            },
            _ => Err(Fault::Unimplemented),
        }
    }
}

/// Which registers a read of a tag with this address and value kind touches
/// through a session of the family `session`.
pub fn read_plan(session: Family, address: &TagAddress, value: &TagValue) -> (r: Result<
    RegisterRead,
    CodecError,
>)
    ensures
        match r {
            Ok(p) => read_plan_spec(session, *address, *value) == Ok::<RegisterRead, Fault>(p),
            Err(e) => read_plan_spec(session, *address, *value) == Err::<RegisterRead, Fault>(e@),
        },
{
    if address.family() != session {
        return Err(CodecError::AddressIncompatible);
    }
    match address {
        TagAddress::ModbusAddr(reg) => {
            let (table, start) = match reg {
                ModbusRegister::Holding(n) => (Some(RegisterTable::Holding), *n),
                ModbusRegister::Input(n) => (Some(RegisterTable::Input), *n),
                ModbusRegister::Coil(n) => (None, *n),
                ModbusRegister::Status(n) => (None, *n),
            };
            match table {
                None => Err(CodecError::Unimplemented),
                Some(t) => match value {
                    TagValue::Bit(_) => Err(CodecError::ValueTypeMismatch),
                    TagValue::Int(_) => Ok(RegisterRead { table: t, start, count: 1 }),
                    _ => Ok(RegisterRead { table: t, start, count: 2 }),
                },
            }
        },
        _ => Err(CodecError::Unimplemented),
    }
}

/// Decodes the registers of a reply into a value of the kind of `value`.
pub fn decode_reply(value: &TagValue, words: &Vec<u16>) -> (r: Option<TagValue>)
    ensures
        r == decode_words(*value, words@),
{
    match value {
        TagValue::Int(_) => {
            if words.len() < 1 {
                None
            } else {
                Some(TagValue::Int(words[0]))
            }
        },
        TagValue::Dint(_) => {
            if words.len() < 2 {
                None
            } else {
                Some(TagValue::Dint(combine_registers(words[0], words[1])))
            }
        },
        TagValue::Real(_) => {
            if words.len() < 2 {
                None
            } else {
                Some(TagValue::Real(combine_registers(words[0], words[1])))
            }
        },
        TagValue::Bit(_) => None,
    }
}

/// The register write that stores `new_value` into a tag with this address
/// whose current value is `value`.
pub fn write_plan(session: Family, address: &TagAddress, value: &TagValue, new_value: &TagValue) -> (r:
    Result<RegisterWrite, CodecError>)
    ensures
        match r {
            Ok(w) => write_plan_spec(session, *address, *value, *new_value) == Ok::<
                RegisterWrite,
                Fault,
            >(w),
            Err(e) => write_plan_spec(session, *address, *value, *new_value) == Err::<
                RegisterWrite,
                Fault,
            >(e@),
        },
{
    if address.family() != session {
        return Err(CodecError::AddressIncompatible);
    }
    match address {
        TagAddress::ModbusAddr(reg) => {
            let start: u16 = match reg {
                ModbusRegister::Holding(n) => *n,
                ModbusRegister::Input(n) => *n,
                ModbusRegister::Coil(_) => {
                    return Err(CodecError::Unimplemented);
                },
                ModbusRegister::Status(_) => {
                    return Err(CodecError::Unimplemented);
                },
            };
            match (value, new_value) {
                (TagValue::Int(_), TagValue::Int(v)) => Ok(
                    RegisterWrite::Single { register: start, word: *v },
                ),
                (TagValue::Dint(_), TagValue::Dint(v)) => {
                    let (hi, lo) = split_register_pair(*v);
                    Ok(RegisterWrite::Pair { start, hi, lo })
                },
                (TagValue::Real(_), TagValue::Real(v)) => {
                    let (hi, lo) = split_register_pair(*v);
                    Ok(RegisterWrite::Pair { start, hi, lo })
                },
                _ => Err(CodecError::ValueTypeMismatch),
            }
        },
        _ => Err(CodecError::Unimplemented),
    }
}

/// Round trip of the register split: for a value of a two-register kind,
/// decoding the words that encode it gives the value back.
pub proof fn lemma_value_round_trip(v: TagValue)
    requires
        v is Dint || v is Real,
    ensures
        decode_words(v, encode_words(v)) == Some(v),
{
    match v {
        TagValue::Dint(x) => lemma_split_combine(x),
        TagValue::Real(x) => lemma_split_combine(x),
        _ => {},
    }
}

/// What a write sends decodes, when read back as the tag's kind, to the value
/// written.
pub proof fn lemma_write_then_read(session: Family, address: TagAddress, value: TagValue, new_value: TagValue)
    requires
        write_plan_spec(session, address, value, new_value) is Ok,
    ensures
        decode_words(value, encode_words(new_value)) == Some(new_value),
        match write_plan_spec(session, address, value, new_value) {
            Ok(RegisterWrite::Single { word, .. }) => encode_words(new_value) == seq![word],
            Ok(RegisterWrite::Pair { hi, lo, .. }) => encode_words(new_value) == seq![hi, lo],
            Err(_) => true,
        },
{
    match new_value {
        TagValue::Dint(x) => lemma_split_combine(x),
        TagValue::Real(x) => lemma_split_combine(x),
        _ => {},
    }
}

} // verus!
