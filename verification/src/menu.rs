//! Section arithmetic shared by the pie menu and the dial menu: which
//! section a rotation selects, and whether the sections fit around the circle.
use vstd::prelude::*;

use crate::config::Rgba;

verus! {

/// `floor(a / b)` for `b != 0`.
pub open spec fn floor_div(a: int, b: int) -> int {
    if b > 0 {
        a / b
    } else {
        (-a) / (-b)
    }
}

/// `x` saturated into the range of `i32`.
pub open spec fn saturate_i32(x: int) -> int {
    if x > i32::MAX {
        i32::MAX as int
    } else if x < i32::MIN {
        i32::MIN as int
    } else {
        x
    }
}

/// The unbounded section counter for a rotation of `accum` units and a step
/// of `step_milli` thousandths of a unit: `floor(accum / step)`, saturated
/// into `i32`. A zero step sends any non-zero rotation to the end of the range
/// in its direction and leaves a zero rotation at zero.
pub open spec fn section_counter(accum: int, step_milli: int) -> int {
    if step_milli == 0 {
        if accum > 0 {
            i32::MAX as int
        } else if accum < 0 {
            i32::MIN as int
        } else {
            0
        }
    } else {
        saturate_i32(floor_div(accum * 1000, step_milli))
    }
}

/// The selected section among `n`: the section counter taken modulo `n`
/// (always in `0..n`).
pub open spec fn selected_section(accum: int, step_milli: int, n: int) -> int {
    section_counter(accum, step_milli) % n
}

/// Whether sections of `360 / n` degrees minus a gap of `gap_milli`
/// thousandths of a degree have a positive sweep.
pub open spec fn sections_fit(gap_milli: int, n: int) -> bool {
    gap_milli * n < 360000
}

/// The colour of each of `n` sections: `selected` for the selected one,
/// `unselected` for the others.
pub open spec fn section_colors(n: nat, sel: int, selected: Rgba, unselected: Rgba) -> Seq<Rgba> {
    Seq::new(n, |i: int| if i == sel { selected } else { unselected })
}

proof fn lemma_floor_div_neg(a: int, b: int)
    requires
        a < 0,
        b > 0,
    ensures
        a / b == -((-a + b - 1) / b),
{
    let m = -a;
    let q = (m + b - 1) / b;
    let r = (m + b - 1) % b;
    assert(m + b - 1 == b * q + r && 0 <= r < b) by {
        vstd::arithmetic::div_mod::lemma_fundamental_div_mod(m + b - 1, b);
    }
    // a = -q * b + (b - 1 - r), with 0 <= b - 1 - r < b
    assert(a == (-q) * b + (b - 1 - r)) by (nonlinear_arith)
        requires
            m == -a,
            m + b - 1 == b * q + r,
    ;
    vstd::arithmetic::div_mod::lemma_fundamental_div_mod_converse(a, b, -q, b - 1 - r);
}

/// The section counter, computed exactly in integers.
pub fn section_counter_of(accum: i64, step_milli: i64) -> (c: i32)
    ensures
        c == section_counter(accum as int, step_milli as int),
{
    if step_milli == 0 {
        if accum > 0 {
            i32::MAX
        } else if accum < 0 {
            i32::MIN
        } else {
            0
        }
    } else {
        let mut a: i128 = (accum as i128) * 1000;
        let mut b: i128 = step_milli as i128;
        if b < 0 {
            a = -a;
            b = -b;
        }
        assert(floor_div(accum * 1000, step_milli as int) == a / b);
        let ub: u128 = b as u128;
        let q: i128 = if a >= 0 {
            let ua: u128 = a as u128;
            (ua / ub) as i128
        } else {
            let m: u128 = (-a) as u128;
            let t: u128 = (m + ub - 1) / ub;
            proof {
                lemma_floor_div_neg(a as int, b as int);
                vstd::arithmetic::div_mod::lemma_div_nonincreasing((m + ub - 1) as int, b as int);
            }
            -(t as i128)
        };
        if q > i32::MAX as i128 {
            i32::MAX
        } else if q < i32::MIN as i128 {
            i32::MIN
        } else {
            q as i32
        }
    }
}

/// `counter` reduced into `0..n` (Euclidean remainder).
pub fn wrap_section(counter: i32, n: usize) -> (s: usize)
    requires
        0 < n <= i32::MAX,
    ensures
        s == counter as int % n as int,
        s < n,
{
    let un: u64 = n as u64;
    if counter >= 0 {
        ((counter as u64) % un) as usize
    } else {
        let m: u64 = ((-(counter as i64)) as u64) % un;
        proof {
            let c = counter as int;
            let ni = n as int;
            vstd::arithmetic::div_mod::lemma_fundamental_div_mod(-c, ni);
            let q = (-c) / ni;
            if m == 0 {
                assert(c == (-q) * ni + 0) by (nonlinear_arith)
                    requires
                        -c == ni * q + m,
                        m == 0,
                ;
                vstd::arithmetic::div_mod::lemma_fundamental_div_mod_converse(c, ni, -q, 0);
            } else {
                assert(c == (-q - 1) * ni + (ni - m)) by (nonlinear_arith)
                    requires
                        -c == ni * q + m,
                ;
                vstd::arithmetic::div_mod::lemma_fundamental_div_mod_converse(
                    c,
                    ni,
                    -q - 1,
                    ni - m,
                );
            }
        }
        if m == 0 {
            0
        } else {
            (un - m) as usize
        }
    }
}

/// The section that a rotation of `accum` selects among `n` sections.
pub fn select_section(accum: i64, step_milli: i64, n: usize) -> (s: usize)
    requires
        0 < n <= i32::MAX,
    ensures
        s == selected_section(accum as int, step_milli as int, n as int),
        s < n,
{
    let c = section_counter_of(accum, step_milli);
    wrap_section(c, n)
}

/// Whether the sections have a positive sweep once the gap is taken off.
pub fn sections_fit_of(gap_milli: i64, n: usize) -> (fit: bool)
    requires
        n > 0,
    ensures
        fit == sections_fit(gap_milli as int, n as int),
{
    if gap_milli <= 0 {
        assert(gap_milli * n <= 0) by (nonlinear_arith)
            requires
                gap_milli <= 0,
                n > 0,
        ;
        true
    } else if gap_milli >= 360000 || n >= 360000 {
        assert(gap_milli * n >= 360000) by (nonlinear_arith)
            requires
                gap_milli > 0,
                n > 0,
                gap_milli >= 360000 || n >= 360000,
        ;
        false
    } else {
        let g: i64 = gap_milli;
        let k: i64 = n as i64;
        assert(0 < g * k < 360000 * 360000) by (nonlinear_arith)
            requires
                0 < g < 360000,
                0 < k < 360000,
        ;
        g * k < 360000
    }
}

/// The colour of each of `n` sections, with `sel` selected.
pub fn build_section_colors(n: usize, sel: usize, selected: Rgba, unselected: Rgba) -> (v: Vec<
    Rgba,
>)
    ensures
        v@ == section_colors(n as nat, sel as int, selected, unselected),
{
    let mut v: Vec<Rgba> = Vec::new();
    let mut i: usize = 0;
    while i < n
        invariant
            i <= n,
            v@ == section_colors(i as nat, sel as int, selected, unselected),
        decreases n - i,
    {
        let c = if i == sel {
            selected
        } else {
            unselected
        };
        v.push(c);
        i = i + 1;
        assert(v@ =~= section_colors(i as nat, sel as int, selected, unselected));
    }
    v
}

} // verus!
