//! A one question arrow key menu.
//!
//! Reading the keys and drawing the list is the terminal's business and
//! happens around the library; where a keypress leaves the cursor is decided
//! here, so the wrap around can be tested without a terminal.

use vstd::prelude::*;

verus! {

#[derive(Debug, Clone, Copy, PartialEq, Eq, Structural)]
pub enum Key {
    Up,
    Down,
    Enter,
    Digit(usize),
    Quit,
    Other,
}

/// Where a keypress leaves the cursor (`Err`), or the choice it settles on
/// (`Ok`): the arrows move and wrap at both ends, Enter takes the cursor, a
/// digit from 1 to the length jumps straight to that entry, and anything else,
/// an out of range digit included, leaves the cursor where it is.
pub open spec fn step_spec(cursor: usize, len: usize, key: Key) -> Result<usize, usize> {
    match key {
        Key::Up => Err(
            if cursor == 0 {
                (len - 1) as usize
            } else {
                (cursor - 1) as usize
            },
        ),
        Key::Down => Err(((cursor + 1) % (len as int)) as usize),
        Key::Digit(n) => if 1 <= n && n <= len {
            Ok((n - 1) as usize)
        } else {
            Err(cursor)
        },
        Key::Enter => Ok(cursor),
        _ => Err(cursor),
    }
}

/// Where a keypress leaves the cursor, or the choice it settles on.
pub fn step(cursor: usize, len: usize, key: &Key) -> (r: Result<usize, usize>)
    requires
        (*key == Key::Up || *key == Key::Down) ==> len > 0,
        *key == Key::Down ==> cursor < usize::MAX,
    ensures
        r == step_spec(cursor, len, *key),
{
    match key {
        Key::Up => Err(
            if cursor == 0 {
                len - 1
            } else {
                cursor - 1
            },
        ),
        Key::Down => Err((cursor + 1) % len),
        Key::Digit(n) => if *n >= 1 && *n <= len {
            Ok(*n - 1)
        } else {
            Err(cursor)
        },
        Key::Enter => Ok(cursor),
        _ => Err(cursor),
    }
}

pub open spec fn position(r: Result<usize, usize>) -> usize {
    match r {
        Ok(p) => p,
        Err(p) => p,
    }
}

/// A cursor on the list stays on it, whatever the key, and a choice is always
/// an entry of the list.
pub proof fn law_step_stays_on_the_list(cursor: usize, len: usize, key: Key)
    requires
        cursor < len,
    ensures
        position(step_spec(cursor, len, key)) < len,
{
}

/// Down then Up puts the cursor back where it was, and so does Up then Down:
/// each arrow undoes the other, including across the wrap.
pub proof fn law_arrows_undo_each_other(cursor: usize, len: usize)
    requires
        cursor < len,
    ensures
        step_spec(position(step_spec(cursor, len, Key::Down)), len, Key::Up) == Err::<usize, usize>(cursor),
        step_spec(position(step_spec(cursor, len, Key::Up)), len, Key::Down) == Err::<usize, usize>(cursor),
{
    if cursor + 1 < len {
        vstd::arithmetic::div_mod::lemma_small_mod((cursor + 1) as nat, len as nat);
    } else {
        assert((cursor + 1) % (len as int) == 0) by {
            assert(cursor + 1 == len);
            vstd::arithmetic::div_mod::lemma_mod_self_0(len as int);
        }
    }
    if cursor == 0 {
        vstd::arithmetic::div_mod::lemma_mod_self_0(len as int);
        assert(((len - 1) + 1) % (len as int) == 0);
    } else {
        vstd::arithmetic::div_mod::lemma_small_mod(cursor as nat, len as nat);
    }
}

/// A cursor that is not on the list never becomes a choice through the
/// arrows: only Enter and the digits choose.
pub proof fn law_only_enter_and_digits_choose(cursor: usize, len: usize, key: Key)
    requires
        step_spec(cursor, len, key) is Ok,
    ensures
        key == Key::Enter || key is Digit,
{
}

} // verus!
