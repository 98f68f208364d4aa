//! Index arithmetic for list navigation and tab-bar hit testing.

use vstd::prelude::*;

verus! {

/// `(cur + delta)` wrapped into `0..len` (Euclidean remainder).
pub open spec fn wrap_spec(cur: int, delta: int, len: int) -> int {
    (cur + delta) % len
}

/// Moves `cur` by `delta` positions in a list of `len` items, wrapping
/// around at both ends (`(cur + delta).rem_euclid(len)`).
pub fn wrap_move(cur: usize, delta: isize, len: usize) -> (r: usize)
    requires
        len > 0,
        cur < len,
    ensures
        r as int == wrap_spec(cur as int, delta as int, len as int),
        r < len,
{
    let a: usize = if delta >= 0 { delta as usize } else { ((-(delta + 1)) as usize) + 1 };
    assert(a as int == if delta >= 0 { delta as int } else { -(delta as int) });
    let m = a % len;
    assert(m < len);
    if delta >= 0 {
        proof {
            vstd::arithmetic::div_mod::lemma_add_mod_noop_right(cur as int, delta as int, len as int);
            if cur >= len - m {
                vstd::arithmetic::div_mod::lemma_mod_add_multiples_vanish(cur as int + m as int - len as int, len as int);
                vstd::arithmetic::div_mod::lemma_small_mod((cur + m - len) as nat, len as nat);
            } else {
                vstd::arithmetic::div_mod::lemma_small_mod((cur + m) as nat, len as nat);
            }
        }
        if cur >= len - m { cur - (len - m) } else { cur + m }
    } else {
        proof {
            vstd::arithmetic::div_mod::lemma_sub_mod_noop_right(cur as int, a as int, len as int);
            vstd::arithmetic::div_mod::lemma_mod_add_multiples_vanish(cur as int - (a as int % len as int), len as int);
            if cur >= m {
                vstd::arithmetic::div_mod::lemma_small_mod((cur - m) as nat, len as nat);
            } else {
                vstd::arithmetic::div_mod::lemma_small_mod((cur + len - m) as nat, len as nat);
            }
        }
        if cur >= m { cur - m } else { cur + (len - m) }
    }
}

/// Which tab a click at `local_x` (relative to the tab bar) falls on, when
/// every tab is `tab_width` wide; `None` when there is no such tab.
pub fn tab_index_from_x(local_x: u16, tab_width: usize, num_tabs: usize) -> (r: Option<usize>)
    ensures
        tab_width == 0 || num_tabs == 0 ==> r is None,
        tab_width > 0 && num_tabs > 0 ==> (r == if (local_x as int) / (tab_width as int) < num_tabs {
            Some(((local_x as int) / (tab_width as int)) as usize)
        } else {
            None::<usize>
        }),
{
    if tab_width == 0 || num_tabs == 0 {
        return None;
    }
    let idx = (local_x as usize) / tab_width;
    if idx < num_tabs { Some(idx) } else { None }
}

} // verus!
