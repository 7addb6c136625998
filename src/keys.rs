use vstd::prelude::*;

use crate::info::{KeyDirection, Kind};
use crate::Error;

verus! {

/// Hardware index of logical key `key` (zero-based, left to right, top to bottom).
pub open spec fn to_hardware_spec(kind: Kind, key: int) -> int {
    match kind.key_direction_spec() {
        KeyDirection::LeftToRight => key + kind.key_index_offset_spec(),
        KeyDirection::RightToLeft => {
            let cols = kind.key_columns_spec() as int;
            let col = key % cols;
            let row = key / cols;
            row * cols + cols - col
        },
    }
}

/// Whether `hw` is the hardware index of some key of the panel.
pub open spec fn is_hardware_index(kind: Kind, hw: int) -> bool {
    match kind.key_direction_spec() {
        KeyDirection::LeftToRight => kind.key_index_offset_spec() <= hw < kind.keys_spec()
            + kind.key_index_offset_spec(),
        KeyDirection::RightToLeft => 1 <= hw <= kind.keys_spec(),
    }
}

/// Logical index of the key with hardware index `hw`.
pub open spec fn from_hardware_spec(kind: Kind, hw: int) -> int {
    match kind.key_direction_spec() {
        KeyDirection::LeftToRight => hw - kind.key_index_offset_spec(),
        KeyDirection::RightToLeft => {
            let cols = kind.key_columns_spec() as int;
            let row = (hw - 1) / cols;
            let place = hw - row * cols;
            row * cols + (cols - place)
        },
    }
}

impl Kind {
    /// Translates a logical key index into the panel's hardware index.
    pub fn translate_key_index(&self, key: u8) -> (r: Result<u8, Error>)
        ensures
            key < self.keys_spec() ==> r == Ok::<u8, Error>(to_hardware_spec(*self, key as int) as u8),
            key >= self.keys_spec() ==> r matches Err(Error::InvalidKeyIndex),
    {
        if key >= self.keys() {
            return Err(Error::InvalidKeyIndex);
        }
        match self.key_direction() {
            KeyDirection::LeftToRight => Ok(key + self.key_index_offset()),
            KeyDirection::RightToLeft => {
                let cols = self.key_columns();
                let col = key % cols;
                let row = key / cols;
                Ok(row * cols + cols - col)
            },
        }
    }

    /// Translates a hardware key index back into the logical index.
    pub fn logical_key_index(&self, hw: u8) -> (r: Result<u8, Error>)
        ensures
            is_hardware_index(*self, hw as int) ==> r == Ok::<u8, Error>(
                from_hardware_spec(*self, hw as int) as u8,
            ),
            !is_hardware_index(*self, hw as int) ==> r matches Err(Error::InvalidKeyIndex),
    {
        match self.key_direction() {
            KeyDirection::LeftToRight => {
                let off = self.key_index_offset();
                if hw < off || hw - off >= self.keys() {
                    Err(Error::InvalidKeyIndex)
                } else {
                    Ok(hw - off)
                }
            },
            KeyDirection::RightToLeft => {
                if hw < 1 || hw > self.keys() {
                    Err(Error::InvalidKeyIndex)
                } else {
                    let cols = self.key_columns();
                    let row = (hw - 1) / cols;
                    let place = hw - row * cols;
                    Ok(row * cols + (cols - place))
                }
            },
        }
    }
}

/// Key index translation is a bijection between the logical indices
/// `[0, keys)` and the panel's hardware indices: every logical index maps to
/// a hardware index and back to itself, and every hardware index comes from
/// exactly one logical index.
pub proof fn lemma_key_index_bijection(kind: Kind)
    ensures
        forall|i: int|
            0 <= i < kind.keys_spec() ==> #[trigger] is_hardware_index(
                kind,
                to_hardware_spec(kind, i),
            ) && from_hardware_spec(kind, to_hardware_spec(kind, i)) == i,
        forall|h: int|
            #[trigger] is_hardware_index(kind, h) ==> 0 <= from_hardware_spec(kind, h)
                < kind.keys_spec() && to_hardware_spec(kind, from_hardware_spec(kind, h)) == h,
{
    if kind.key_direction_spec() == KeyDirection::RightToLeft {
        let cols = kind.key_columns_spec() as int;
        let keys = kind.keys_spec() as int;
        assert(keys % cols == 0 && cols > 0);
        assert forall|h: int| #[trigger] is_hardware_index(kind, h) implies 0 <= from_hardware_spec(
            kind,
            h,
        ) < keys && to_hardware_spec(kind, from_hardware_spec(kind, h)) == h by {
            let row = (h - 1) / cols;
            let place = h - row * cols;
            let k = row * cols + (cols - place);
            assert(1 <= place <= cols && 0 <= row && row * cols + cols <= keys) by (nonlinear_arith)
                requires
                    row == (h - 1) / cols,
                    place == h - row * cols,
                    1 <= h <= keys,
                    cols > 0,
                    keys % cols == 0,
            ;
            assert(k / cols == row && k % cols == cols - place) by (nonlinear_arith)
                requires
                    k == row * cols + (cols - place),
                    1 <= place <= cols,
                    0 <= row,
                    cols > 0,
            ;
        }
    }
}

} // verus!
