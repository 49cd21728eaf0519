//! The controller side of a plug-in: parameter descriptions, and the
//! in-memory stream through which a plug-in reads and writes its state.

use crate::error::Error;
use crate::util::{text_of_units, ToRustString};
use vstd::prelude::*;
use vstd::slice::slice_subrange;

verus! {

/// Seek mode: the position is counted from the start of the stream.
pub const SEEK_SET: i32 = 0;

/// Seek mode: the position is counted from the current position.
pub const SEEK_CUR: i32 = 1;

/// Seek mode: the position is counted back from the end of the stream.
pub const SEEK_END: i32 = 2;

/// Parameter flag: no flag at all.
pub const NO_FLAGS: i32 = 0;

/// Parameter flag: the parameter can be automated.
pub const CAN_AUTOMATE: i32 = 1;

/// Parameter flag: the parameter cannot be changed from outside.
pub const IS_READ_ONLY: i32 = 2;

/// Parameter flag: the value wraps around at its ends.
pub const IS_WRAP_AROUND: i32 = 4;

/// Parameter flag: the parameter is shown as a list.
pub const IS_LIST: i32 = 8;

/// Parameter flag: the parameter is hidden.
pub const IS_HIDDEN: i32 = 16;

/// Parameter flag: the parameter selects a program.
pub const IS_PROGRAM_CHANGE: i32 = 32768;

/// Parameter flag: the parameter is the bypass switch.
pub const IS_BYPASS: i32 = 65536;

/// How a knob follows the mouse.
#[derive(Copy, Clone, Debug, PartialEq, Eq, Structural)]
pub enum KnobMode {
    Circular,
    Linear,
    RelativCircular,
}

/// The number that stands for `mode` at the boundary.
pub open spec fn knob_mode_code(mode: KnobMode) -> i32 {
    match mode {
        KnobMode::Circular => 0,
        KnobMode::RelativCircular => 1,
        KnobMode::Linear => 2,
    }
}

impl KnobMode {
    /// The number that stands for this mode at the boundary.
    pub fn code(self) -> (code: i32)
        ensures
            code == knob_mode_code(self),
    {
        match self {
            KnobMode::Circular => 0,
            KnobMode::RelativCircular => 1,
            KnobMode::Linear => 2,
        }
    }
}

/// The flags of a parameter.
#[derive(Copy, Clone, Debug, PartialEq, Eq, Structural)]
pub struct ParameterFlags {
    bits: i32,
}

impl ParameterFlags {
    /// The flag word of this set.
    pub closed spec fn spec_bits(self) -> i32 {
        self.bits
    }

    /// The set that holds exactly the bits of `bits`, known or not.
    pub fn from_bits_retain(bits: i32) -> (flags: ParameterFlags)
        ensures
            flags.spec_bits() == bits,
    {
        ParameterFlags { bits }
    }

    /// The flag word of this set.
    #[verifier::when_used_as_spec(spec_bits)]
    pub fn bits(self) -> (bits: i32)
        ensures
            bits == self.spec_bits(),
    {
        self.bits
    }

    /// Whether every flag of `other` is in this set.
    pub fn contains(self, other: ParameterFlags) -> (all: bool)
        ensures
            all == (self.spec_bits() & other.spec_bits() == other.spec_bits()),
    {
        (self.bits & other.bits) == other.bits
    }
}

/// What a controller says about one of its parameters. `V` is the type of
/// its normalized values.
#[derive(Debug)]
pub struct ParameterInfo<V> {
    pub id: u32,
    pub title: String,
    pub short_title: String,
    pub units: String,
    pub step_count: i32,
    pub default_normalized_value: V,
    pub unit_id: i32,
    pub flags: ParameterFlags,
}

/// What a controller fills in when asked about a parameter, as it crosses
/// the boundary.
pub struct ParameterRecord<V> {
    pub id: u32,
    pub title: [u16; 128],
    pub short_title: [u16; 128],
    pub units: [u16; 128],
    pub step_count: i32,
    pub default_normalized_value: V,
    pub unit_id: i32,
    pub flags: i32,
}

impl<V: Copy> ParameterInfo<V> {
    /// Reads the description of a parameter from the record that the
    /// controller filled.
    pub fn from_record(record: &ParameterRecord<V>) -> (info: ParameterInfo<V>)
        ensures
            info.id == record.id,
            info.title@ == text_of_units(record.title@),
            info.short_title@ == text_of_units(record.short_title@),
            info.units@ == text_of_units(record.units@),
            info.step_count == record.step_count,
            info.default_normalized_value == record.default_normalized_value,
            info.unit_id == record.unit_id,
            info.flags.spec_bits() == record.flags,
    {
        ParameterInfo {
            id: record.id,
            title: record.title.to_rust_string(),
            short_title: record.short_title.to_rust_string(),
            units: record.units.to_rust_string(),
            step_count: record.step_count,
            default_normalized_value: record.default_normalized_value,
            unit_id: record.unit_id,
            flags: ParameterFlags::from_bits_retain(record.flags),
        }
    }
}

/// A stream in memory: the bytes of a state, and a position in them.
#[derive(Debug)]
pub struct StateStream {
    offset: usize,
    data: Vec<u8>,
}

/// Where a seek in the mode `mode` to `pos` leads from the position
/// `offset` in a stream of `len` bytes, or the error where it is refused.
/// A seek from the current position stops at the end; a seek back from the
/// end stops at the start; a seek from the start has to name a byte of the
/// stream.
pub open spec fn seek_target(offset: int, len: int, pos: int, mode: i32) -> Result<int, Error> {
    if mode == SEEK_CUR {
        Ok(
            if offset + pos < len {
                offset + pos
            } else {
                len
            },
        )
    } else if mode == SEEK_END {
        Ok(
            if pos < len {
                len - pos
            } else {
                0
            },
        )
    } else if mode == SEEK_SET {
        if pos < 0 || pos >= len {
            Err(Error::InvalidArg)
        } else {
            Ok(pos)
        }
    } else {
        Err(Error::InvalidArg)
    }
}

/// The number of bytes that a read of `count` bytes gets at `offset` in a
/// stream of `len` bytes.
pub open spec fn read_len(offset: int, len: int, count: int) -> int {
    if count < len - offset {
        count
    } else {
        len - offset
    }
}

impl StateStream {
    /// The position never passes the end.
    #[verifier::type_invariant]
    spec fn wf(&self) -> bool {
        self.offset <= self.data@.len()
    }

    /// The bytes of the stream.
    pub closed spec fn view(&self) -> Seq<u8> {
        self.data@
    }

    /// The position of the stream.
    pub closed spec fn position(&self) -> nat {
        self.offset as nat
    }

    /// An empty stream.
    pub fn new() -> (stream: StateStream)
        ensures
            stream@ == Seq::<u8>::empty(),
            stream.position() == 0,
    {
        StateStream { offset: 0, data: Vec::new() }
    }

    /// A stream over a copy of `value`, positioned at its start.
    pub fn from(value: &[u8]) -> (stream: StateStream)
        ensures
            stream@ == value@,
            stream.position() == 0,
    {
        let mut data: Vec<u8> = Vec::new();
        data.extend_from_slice(value);
        StateStream { offset: 0, data }
    }

    /// A copy of the bytes of the stream.
    pub fn data(&self) -> (data: Vec<u8>)
        ensures
            data@ == self@,
    {
        self.data.clone()
    }

    /// Reads up to `num_bytes` bytes from the position on and moves the
    /// position behind them. Fewer come where the stream ends before.
    pub fn read(&mut self, num_bytes: i32) -> (bytes: Vec<u8>)
        requires
            num_bytes >= 0,
        ensures
            final(self)@ == old(self)@,
            old(self).position() <= old(self)@.len(),
            bytes@.len() == read_len(
                old(self).position() as int,
                old(self)@.len() as int,
                num_bytes as int,
            ),
            bytes@ == old(self)@.subrange(
                old(self).position() as int,
                old(self).position() as int + bytes@.len(),
            ),
            final(self).position() == old(self).position() + bytes@.len(),
    {
        proof {
            use_type_invariant(&*self);
        }
        let read_len = num_bytes as usize;
        let inner_len = self.data.len() - self.offset;
        let len = if read_len < inner_len {
            read_len
        } else {
            inner_len
        };
        let mut bytes: Vec<u8> = Vec::new();
        let end = self.offset + len;
        bytes.extend_from_slice(slice_subrange(self.data.as_slice(), self.offset, end));
        self.offset += len;
        bytes
    }

    /// Appends `bytes` to the stream, moves the position on by their
    /// number, and answers that number.
    pub fn write(&mut self, bytes: &[u8]) -> (written: i32)
        requires
            bytes@.len() <= i32::MAX,
            old(self)@.len() + bytes@.len() <= usize::MAX,
        ensures
            final(self)@ == old(self)@ + bytes@,
            final(self).position() == old(self).position() + bytes@.len(),
            written == bytes@.len(),
    {
        proof {
            use_type_invariant(&*self);
        }
        let mut taken = StateStream::new();
        core::mem::swap(self, &mut taken);
        let StateStream { offset, mut data } = taken;
        data.extend_from_slice(bytes);
        *self = StateStream { offset: offset + bytes.len(), data };
        bytes.len() as i32
    }

    /// Moves the position and answers the new one. A seek that is refused
    /// leaves the position where it was.
    pub fn seek(&mut self, pos: i64, mode: i32) -> (result: Result<i64, Error>)
        requires
            old(self)@.len() <= i64::MAX,
            (mode == SEEK_CUR || mode == SEEK_END) ==> pos >= 0,
        ensures
            final(self)@ == old(self)@,
            match seek_target(
                old(self).position() as int,
                old(self)@.len() as int,
                pos as int,
                mode,
            ) {
                Ok(target) => result == Ok::<i64, Error>(target as i64) && final(self).position()
                    == target,
                Err(e) => result == Err::<i64, Error>(e) && final(self).position() == old(
                    self).position(),
            },
    {
        proof {
            use_type_invariant(&*self);
        }
        let len = self.data.len();
        let target: usize = if mode == SEEK_CUR {
            let room = len - self.offset;
            if (pos as u64) < (room as u64) {
                self.offset + (pos as usize)
            } else {
                len
            }
        } else if mode == SEEK_END {
            if (pos as u64) < (len as u64) {
                len - (pos as usize)
            } else {
                0
            }
        } else if mode == SEEK_SET {
            if pos < 0 || (pos as u64) >= (len as u64) {
                return Err(Error::InvalidArg);
            }
            pos as usize
        } else {
            return Err(Error::InvalidArg);
        };
        self.offset = target;
        Ok(target as i64)
    }

    /// The position of the stream.
    pub fn tell(&self) -> (pos: i64)
        requires
            self@.len() <= i64::MAX,
        ensures
            pos == self.position(),
    {
        proof {
            use_type_invariant(self);
        }
        self.offset as i64
    }
}

} // verus!
