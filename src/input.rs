use vstd::prelude::*;

use crate::info::{KeyDirection, Kind};
use crate::keys::to_hardware_spec;
use crate::Error;

verus! {

/// Length of a button report: the report id, the variant's leading bytes and one byte per key.
pub open spec fn input_report_len_spec(kind: Kind) -> int {
    1 + kind.key_data_offset_spec() + kind.keys_spec()
}

/// Lowest hardware index of the panel.
pub open spec fn first_hardware_index(kind: Kind) -> int {
    match kind.key_direction_spec() {
        KeyDirection::LeftToRight => kind.key_index_offset_spec() as int,
        KeyDirection::RightToLeft => 1,
    }
}

/// Position in a button report of the state of logical key `i`: button
/// states arrive in hardware index order after the report id and the
/// variant's leading bytes.
pub open spec fn button_byte_index(kind: Kind, i: int) -> int {
    1 + kind.key_data_offset_spec() + (to_hardware_spec(kind, i) - first_hardware_index(kind))
}

/// Length of the button report of `kind`.
pub fn input_report_len(kind: Kind) -> (r: usize)
    ensures
        r == input_report_len_spec(kind),
{
    1 + kind.key_data_offset() + kind.keys() as usize
}

/// Decodes one button report into the key states in logical order.
pub fn decode_buttons(kind: Kind, report: &[u8]) -> (r: Result<Vec<u8>, Error>)
    requires
        report@.len() >= input_report_len_spec(kind),
    ensures
        report@[0] == 0 ==> r matches Err(Error::NoData),
        report@[0] != 0 && kind.multiplexes_input_spec() && report@[1] != 0 ==> r matches Err(
            Error::UnsupportedInput,
        ),
        report@[0] != 0 && !(kind.multiplexes_input_spec() && report@[1] != 0) ==> (r matches Ok(
            keys,
        ) && keys@.len() == kind.keys_spec() && forall|i: int|
            0 <= i < kind.keys_spec() ==> #[trigger] keys@[i] == report@[button_byte_index(
                kind,
                i,
            )]),
{
    if report[0] == 0 {
        return Err(Error::NoData);
    }
    if kind.multiplexes_input() && report[1] != 0 {
        // a dial or the touch strip was used: these bytes are no button states
        return Err(Error::UnsupportedInput);
    }
    let keys = kind.keys();
    let offset = kind.key_data_offset();
    let direction = kind.key_direction();
    let mut out: Vec<u8> = Vec::new();
    let mut i: u8 = 0;
    while i < keys
        invariant
            keys == kind.keys_spec(),
            offset == kind.key_data_offset_spec(),
            direction == kind.key_direction_spec(),
            report@.len() >= input_report_len_spec(kind),
            i <= keys,
            out@.len() == i,
            forall|j: int| 0 <= j < i ==> #[trigger] out@[j] == report@[button_byte_index(kind, j)],
        decreases keys - i,
    {
        let pos: usize = match direction {
            KeyDirection::LeftToRight => 1 + offset + i as usize,
            KeyDirection::RightToLeft => {
                proof {
                    crate::keys::lemma_key_index_bijection(kind);
                    assert(crate::keys::is_hardware_index(kind, to_hardware_spec(kind, i as int)));
                }
                let hw = match kind.translate_key_index(i) {
                    Ok(h) => h,
                    Err(e) => return Err(e),
                };
                offset + hw as usize
            },
        };
        out.push(report[pos]);
        i = i + 1;
    }
    Ok(out)
}

} // verus!
