//! The matrix keypad: which keys one scan finds pressed.
//!
//! The keypad has three columns of seven keys. A scan raises one column
//! at a time and reads the row lines; the levels that it read are what is
//! decided on here.

use vstd::prelude::*;

verus! {

/// The columns of the keypad.
pub const COLUMNS: usize = 3;

/// The keys of one column.
pub const KEYS_PER_COLUMN: usize = 7;

/// The most keys that one report can name.
pub const MAX_KEYS: usize = 6;

/// The key code that fills a report when more keys are down than it can name.
pub const KEY_ERR_OVF: u8 = 0x01;

/// The time between two scans, in milliseconds.
pub const SCAN_INTERVAL_MS: u32 = 5;

/// The key code of the key at a column and a row: the letters A to G in
/// the first column, the digits 0 to 4 and the two arrows in the second, the
/// digits 5 to 9, return and escape in the third.
pub open spec fn key_code(column: int, row: int) -> u8 {
    if column == 0 {
        (0x04 + row) as u8
    } else if column == 1 {
        if row == 0 {
            0x27
        } else if row <= 4 {
            (0x1D + row) as u8
        } else if row == 5 {
            0x52
        } else {
            0x51
        }
    } else {
        if row <= 4 {
            (0x22 + row) as u8
        } else if row == 5 {
            0x28
        } else {
            0x29
        }
    }
}

/// Whether the key at a position of the scan is down; the scan goes
/// through the columns, and through the seven keys of each.
pub open spec fn is_down(levels: [[bool; 8]; 3], position: int) -> bool {
    levels[position / 7][position % 7]
}

/// The codes of the keys that are down among the first `upto` positions of
/// the scan, in the order of the scan.
pub open spec fn keys_down(levels: [[bool; 8]; 3], upto: int) -> Seq<u8>
    decreases upto,
{
    if upto <= 0 {
        Seq::empty()
    } else if is_down(levels, upto - 1) {
        keys_down(levels, upto - 1).push(key_code((upto - 1) / 7, (upto - 1) % 7))
    } else {
        keys_down(levels, upto - 1)
    }
}

/// The report of a scan: the codes of the keys that are down, in the order
/// of the scan, filled up with zeros; or six times `KEY_ERR_OVF` where more
/// than six keys are down.
pub open spec fn report(levels: [[bool; 8]; 3]) -> Seq<u8> {
    let down = keys_down(levels, 21);
    if down.len() > MAX_KEYS {
        Seq::new(MAX_KEYS as nat, |i: int| KEY_ERR_OVF)
    } else {
        Seq::new(
            MAX_KEYS as nat,
            |i: int|
                if i < down.len() {
                    down[i]
                } else {
                    0u8
                },
        )
    }
}

/// The key code of the key at a column and a row.
pub fn keypad_code(column: usize, row: usize) -> (code: u8)
    requires
        column < COLUMNS,
        row < KEYS_PER_COLUMN,
    ensures
        code == key_code(column as int, row as int),
{
    if column == 0 {
        0x04 + row as u8
    } else if column == 1 {
        if row == 0 {
            0x27
        } else if row <= 4 {
            0x1D + row as u8
        } else if row == 5 {
            0x52
        } else {
            0x51
        }
    } else {
        if row <= 4 {
            0x22 + row as u8
        } else if row == 5 {
            0x28
        } else {
            0x29
        }
    }
}

/// The keys that a scan found pressed. `levels[c][r]` is the level of row
/// line `r` while column `c` was raised; the eighth row line carries no key.
pub fn get_pressed_keys(levels: &[[bool; 8]; 3]) -> (pressed: [u8; 6])
    ensures
        pressed@ == report(*levels),
{
    let mut pressed: [u8; 6] = [0; 6];
    let mut count: usize = 0;
    let mut position: usize = 0;
    while position < 21
        invariant
            position <= 21,
            count <= 6,
            count == keys_down(*levels, position as int).len(),
            forall|i: int| 0 <= i < count ==> pressed[i] == keys_down(*levels, position as int)[i],
            forall|i: int| count <= i < 6 ==> pressed[i] == 0,
        decreases 21 - position,
    {
        let column = position / 7;
        let row = position % 7;
        if levels[column][row] {
            if count == 6 {
                let overflow = [
                    KEY_ERR_OVF,
                    KEY_ERR_OVF,
                    KEY_ERR_OVF,
                    KEY_ERR_OVF,
                    KEY_ERR_OVF,
                    KEY_ERR_OVF,
                ];
                proof {
                    assert(is_down(*levels, position as int));
                    assert(keys_down(*levels, position + 1).len() == 7);
                    lemma_keys_down_grows(*levels, position as int + 1, 21);
                    assert(overflow@ =~= report(*levels));
                }
                return overflow;
            }
            pressed[count] = keypad_code(column, row);
            count = count + 1;
        }
        position = position + 1;
    }
    proof {
        assert(pressed@ =~= report(*levels));
    }
    pressed
}

/// The keys that are down among more positions are no fewer.
pub proof fn lemma_keys_down_grows(levels: [[bool; 8]; 3], fewer: int, more: int)
    requires
        0 <= fewer <= more,
    ensures
        keys_down(levels, fewer).len() <= keys_down(levels, more).len(),
    decreases more - fewer,
{
    if fewer < more {
        lemma_keys_down_grows(levels, fewer, more - 1);
    }
}

/// A report names no key that is not down, and never more than the scan
/// has keys: with no key down it is all zeros.
pub proof fn lemma_idle_keypad_reports_nothing(levels: [[bool; 8]; 3])
    requires
        forall|p: int| 0 <= p < 21 ==> !is_down(levels, p),
    ensures
        report(levels) == Seq::new(6, |i: int| 0u8),
{
    lemma_none_down(levels, 21);
    assert(report(levels) =~= Seq::new(6, |i: int| 0u8));
}

proof fn lemma_none_down(levels: [[bool; 8]; 3], upto: int)
    requires
        0 <= upto <= 21,
        forall|p: int| 0 <= p < 21 ==> !is_down(levels, p),
    ensures
        keys_down(levels, upto).len() == 0,
    decreases upto,
{
    if upto > 0 {
        lemma_none_down(levels, upto - 1);
    }
}

} // verus!
