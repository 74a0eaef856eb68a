use vstd::prelude::*;

verus! {

/// Addressing mode named by the six-bit effective-address field of an
/// instruction word (mode in bits 5..3, register in bits 2..0).
#[derive(Clone, Copy, PartialEq, Eq, Structural, Debug)]
pub enum AddrMode {
    DataReg,
    AddrReg,
    Addr,
    AddrPostInc,
    AddrPreDec,
    AddrDisp,
    AddrIdx,
    PCDisp,
    PCIdx,
    AbsShort,
    AbsLong,
    Imm,
}

/// The effective-address field holds a reserved encoding.
#[derive(Clone, Copy, PartialEq, Eq, Structural, Debug)]
pub enum DecodeError {
    Reserved { field: u8 },
}

impl AddrMode {
    /// Mode named by a six-bit field; `None` for the reserved encodings
    /// (mode 7 with register 5, 6 or 7) and for values that do not fit in
    /// six bits.
    pub open spec fn of_field(f: u8) -> Option<AddrMode> {
        if f >= 64 {
            None
        } else if f / 8 < 7 {
            Some(
                match f / 8 {
                    0 => AddrMode::DataReg,
                    1 => AddrMode::AddrReg,
                    2 => AddrMode::Addr,
                    3 => AddrMode::AddrPostInc,
                    4 => AddrMode::AddrPreDec,
                    5 => AddrMode::AddrDisp,
                    _ => AddrMode::AddrIdx,
                },
            )
        } else {
            match f % 8 {
                0 => Some(AddrMode::AbsShort),
                1 => Some(AddrMode::AbsLong),
                2 => Some(AddrMode::PCDisp),
                3 => Some(AddrMode::PCIdx),
                4 => Some(AddrMode::Imm),
                _ => None,
            }
        }
    }

    /// Maps a six-bit effective-address field to its mode, rejecting
    /// reserved encodings.
    pub fn from_bits(f: u8) -> (r: Result<AddrMode, DecodeError>)
        ensures
            match AddrMode::of_field(f) {
                Some(m) => r == Ok::<AddrMode, DecodeError>(m),
                None => r == Err::<AddrMode, DecodeError>(DecodeError::Reserved { field: f }),
            },
    {
        if f >= 64 {
            return Err(DecodeError::Reserved { field: f });
        }
        match f / 8 {
            0 => Ok(AddrMode::DataReg),
            1 => Ok(AddrMode::AddrReg),
            2 => Ok(AddrMode::Addr),
            3 => Ok(AddrMode::AddrPostInc),
            4 => Ok(AddrMode::AddrPreDec),
            5 => Ok(AddrMode::AddrDisp),
            6 => Ok(AddrMode::AddrIdx),
            _ => match f % 8 {
                0 => Ok(AddrMode::AbsShort),
                1 => Ok(AddrMode::AbsLong),
                2 => Ok(AddrMode::PCDisp),
                3 => Ok(AddrMode::PCIdx),
                4 => Ok(AddrMode::Imm),
                _ => Err(DecodeError::Reserved { field: f }),
            },
        }
    }
}

/// Addressing mode of an instruction word, read from its low six bits.
pub fn decode(opcode: u16) -> (r: Result<AddrMode, DecodeError>)
    ensures
        match AddrMode::of_field((opcode % 64) as u8) {
            Some(m) => r == Ok::<AddrMode, DecodeError>(m),
            None => r == Err::<AddrMode, DecodeError>(
                DecodeError::Reserved { field: (opcode % 64) as u8 },
            ),
        },
{
    let field = opcode & 0x3f;
    assert(field == opcode % 64) by (bit_vector)
        requires
            field == opcode & 0x3f,
    ;
    AddrMode::from_bits(field as u8)
}

} // verus!
