//! The ten canonical finger slots and their native numeric encoding.

use vstd::prelude::*;

use crate::errors::FPrintError;

verus! {

/// One of the ten human fingers a print can be enrolled for.
///
/// The native layer encodes these as the ordinals 1 through 10; `code`
/// and `try_from` convert in the two directions.
#[derive(Debug, Clone, Copy, PartialEq, Eq, Structural)]
pub enum Finger {
    LeftThumb,
    LeftIndex,
    LeftMiddle,
    LeftRing,
    LeftLittle,
    RightThumb,
    RightIndex,
    RightMiddle,
    RightRing,
    RightLittle,
}

impl Finger {
    /// The native ordinal of this finger.
    pub open spec fn code_spec(self) -> u32 {
        match self {
            Finger::LeftThumb => 1,
            Finger::LeftIndex => 2,
            Finger::LeftMiddle => 3,
            Finger::LeftRing => 4,
            Finger::LeftLittle => 5,
            Finger::RightThumb => 6,
            Finger::RightIndex => 7,
            Finger::RightMiddle => 8,
            Finger::RightRing => 9,
            Finger::RightLittle => 10,
        }
    }

    /// The finger a native ordinal denotes, if any.
    pub open spec fn decode_spec(value: u32) -> Option<Finger> {
        if value == 1 {
            Some(Finger::LeftThumb)
        } else if value == 2 {
            Some(Finger::LeftIndex)
        } else if value == 3 {
            Some(Finger::LeftMiddle)
        } else if value == 4 {
            Some(Finger::LeftRing)
        } else if value == 5 {
            Some(Finger::LeftLittle)
        } else if value == 6 {
            Some(Finger::RightThumb)
        } else if value == 7 {
            Some(Finger::RightIndex)
        } else if value == 8 {
            Some(Finger::RightMiddle)
        } else if value == 9 {
            Some(Finger::RightRing)
        } else if value == 10 {
            Some(Finger::RightLittle)
        } else {
            None
        }
    }

    /// Encodes this finger as its native ordinal.
    pub fn code(self) -> (r: u32)
        ensures
            r == self.code_spec(),
    {
        match self {
            Finger::LeftThumb => 1,
            Finger::LeftIndex => 2,
            Finger::LeftMiddle => 3,
            Finger::LeftRing => 4,
            Finger::LeftLittle => 5,
            Finger::RightThumb => 6,
            Finger::RightIndex => 7,
            Finger::RightMiddle => 8,
            Finger::RightRing => 9,
            Finger::RightLittle => 10,
        }
    }

    /// Decodes a native ordinal, rejecting every value outside 1..=10.
    pub fn try_from(value: u32) -> (r: Result<Finger, FPrintError>)
        ensures
            Finger::decode_spec(value) matches Some(f) ==> r == Ok::<Finger, FPrintError>(f),
            Finger::decode_spec(value) is None ==> r == Err::<Finger, FPrintError>(
                FPrintError::InvalidEnumValue(value),
            ),
    {
        if value == 1 {
            Ok(Finger::LeftThumb)
        } else if value == 2 {
            Ok(Finger::LeftIndex)
        } else if value == 3 {
            Ok(Finger::LeftMiddle)
        } else if value == 4 {
            Ok(Finger::LeftRing)
        } else if value == 5 {
            Ok(Finger::LeftLittle)
        } else if value == 6 {
            Ok(Finger::RightThumb)
        } else if value == 7 {
            Ok(Finger::RightIndex)
        } else if value == 8 {
            Ok(Finger::RightMiddle)
        } else if value == 9 {
            Ok(Finger::RightRing)
        } else if value == 10 {
            Ok(Finger::RightLittle)
        } else {
            Err(FPrintError::InvalidEnumValue(value))
        }
    }

    /// The display name of this finger.
    pub open spec fn name_spec(self) -> Seq<char> {
        match self {
            Finger::LeftThumb => "LeftThumb"@,
            Finger::LeftIndex => "LeftIndex"@,
            Finger::LeftMiddle => "LeftMiddle"@,
            Finger::LeftRing => "LeftRing"@,
            Finger::LeftLittle => "LeftLittle"@,
            Finger::RightThumb => "RightThumb"@,
            Finger::RightIndex => "RightIndex"@,
            Finger::RightMiddle => "RightMiddle"@,
            Finger::RightRing => "RightRing"@,
            Finger::RightLittle => "RightLittle"@,
        }
    }

    /// Renders this finger's display name.
    pub fn name(self) -> (r: String)
        ensures
            r@ == self.name_spec(),
    {
        match self {
            Finger::LeftThumb => String::from_str("LeftThumb"),
            Finger::LeftIndex => String::from_str("LeftIndex"),
            Finger::LeftMiddle => String::from_str("LeftMiddle"),
            Finger::LeftRing => String::from_str("LeftRing"),
            Finger::LeftLittle => String::from_str("LeftLittle"),
            Finger::RightThumb => String::from_str("RightThumb"),
            Finger::RightIndex => String::from_str("RightIndex"),
            Finger::RightMiddle => String::from_str("RightMiddle"),
            Finger::RightRing => String::from_str("RightRing"),
            Finger::RightLittle => String::from_str("RightLittle"),
        }
    }
}

/// Law: decoding the encoding of any finger gives that finger back.
pub proof fn lemma_finger_decode_encode(f: Finger)
    ensures
        Finger::decode_spec(f.code_spec()) == Some(f),
{
}

/// Law: the native encoding is a bijection between the ten fingers and
/// the ordinals 1..=10.  Every ordinal in that range decodes to a finger
/// that encodes back to it, and every value outside the range decodes to
/// nothing.
pub proof fn lemma_finger_encode_bijective(value: u32)
    ensures
        1 <= value <= 10 ==> (Finger::decode_spec(value) matches Some(f) && f.code_spec()
            == value),
        !(1 <= value <= 10) ==> Finger::decode_spec(value) is None,
{
}

} // verus!
