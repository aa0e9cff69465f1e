//! Memory and swap usage blocks.
use vstd::prelude::*;
use crate::codec::{Block, BlockView, text_block};
use crate::controller::{block_views, status_line, Controller, ControllerView};
use crate::icon;
use crate::text::{decimal, digit, digit_char, owned, push_char, push_decimal};
use vstd::string::StringExecFns;

verus! {

/// `1024` to the power `e`.
pub open spec fn pow1024(e: nat) -> nat
    decreases e,
{
    if e == 0 {
        1
    } else {
        1024 * pow1024((e - 1) as nat)
    }
}

/// The largest `e` with `1024^e <= b` (zero for `b < 1024`).
pub open spec fn unit_exp(b: nat) -> nat
    decreases b,
{
    if b < 1024 {
        0
    } else {
        1 + unit_exp(b / 1024)
    }
}

/// The unit letter for the amount `1024^e` kilobytes.
pub open spec fn unit_char(e: nat) -> char {
    if e == 0 {
        'k'
    } else if e == 1 {
        'M'
    } else if e == 2 {
        'G'
    } else {
        'T'
    }
}

/// `b / d` in tenths, rounded to the nearest tenth, ties to an even tenth.
pub open spec fn round_tenths(b: nat, d: nat) -> nat {
    let q = (b * 10) / d;
    let r = (b * 10) % d;
    if 2 * r > d || (2 * r == d && q % 2 == 1) {
        q + 1
    } else {
        q
    }
}

/// An amount of `kb` kilobytes written with one decimal in the largest unit
/// (k, M, G or T) that is not more than the amount; `0k` for nothing.
pub open spec fn size_text(kb: nat) -> Seq<char> {
    if kb == 0 {
        seq!['0', 'k']
    } else {
        let e = unit_exp(kb);
        let t = round_tenths(kb, pow1024(e));
        decimal(t / 10) + seq!['.', digit(t % 10), unit_char(e)]
    }
}

/// The amounts that can be written: below `1024^4` kilobytes, so that the
/// unit is at most T.
pub open spec fn size_writable(kb: nat) -> bool {
    kb < 1099511627776
}

proof fn lemma_pow1024_small()
    ensures
        pow1024(0) == 1,
        pow1024(1) == 1024,
        pow1024(2) == 1048576,
        pow1024(3) == 1073741824,
        pow1024(4) == 1099511627776,
{
    reveal_with_fuel(pow1024, 5);
}

/// The unit chosen for an amount is the largest one that the amount
/// reaches: `1024^e <= kb < 1024^(e+1)` for the exponent `e` of the unit.
pub proof fn law_unit_fits(kb: nat)
    requires
        kb >= 1,
    ensures
        pow1024(unit_exp(kb)) <= kb < pow1024(unit_exp(kb) + 1),
    decreases kb,
{
    reveal_with_fuel(pow1024, 2);
    if kb >= 1024 {
        let q = kb / 1024;
        law_unit_fits(q);
        let e = unit_exp(q);
        assert(unit_exp(kb) == e + 1);
        assert(pow1024(e + 1) == 1024 * pow1024(e));
        assert(pow1024(e + 2) == 1024 * pow1024(e + 1));
        assert(1024 * pow1024(e) <= kb) by (nonlinear_arith)
            requires
                pow1024(e) <= q,
                q == kb / 1024,
        ;
        assert(kb < 1024 * pow1024(e + 1)) by (nonlinear_arith)
            requires
                q < pow1024(e + 1),
                q == kb / 1024,
        ;
    }
}

/// The written value is the amount in the chosen unit, rounded to the
/// nearest tenth: it is off by at most half a tenth.
pub proof fn law_rounded_to_tenth(kb: nat, d: nat)
    requires
        d > 0,
    ensures
        2 * round_tenths(kb, d) * d <= 20 * kb + d,
        20 * kb <= 2 * round_tenths(kb, d) * d + d,
{
    let q = (kb * 10) / d;
    let r = (kb * 10) % d;
    assert(q * d + r == kb * 10) by (nonlinear_arith)
        requires
            q == (kb * 10) / d,
            r == (kb * 10) % d,
            d > 0,
    ;
    assert(0 <= r < d) by (nonlinear_arith)
        requires
            r == (kb * 10) % d,
            d > 0,
    ;
    let t = round_tenths(kb, d);
    assert(t == q + 1 && 2 * r >= d || t == q && 2 * r <= d);
    assert(2 * t * d <= 20 * kb + d && 20 * kb <= 2 * t * d + d) by (nonlinear_arith)
        requires
            q * d + r == kb * 10,
            0 <= r < d,
            t == q + 1 && 2 * r >= d || t == q && 2 * r <= d,
    ;
}

fn unit(e: u64) -> (c: char)
    ensures
        c == unit_char(e as nat),
{
    if e == 0 {
        'k'
    } else if e == 1 {
        'M'
    } else if e == 2 {
        'G'
    } else {
        'T'
    }
}

/// Writes an amount of kilobytes for the bar, as described at [`size_text`].
pub fn convert_bytes(bytes: u64) -> (s: String)
    requires
        size_writable(bytes as nat),
    ensures
        s@ == size_text(bytes as nat),
{
    if bytes == 0 {
        let mut s = String::new();
        push_char(&mut s, '0');
        push_char(&mut s, 'k');
        assert(s@ =~= seq!['0', 'k']);
        return s;
    }
    proof {
        lemma_pow1024_small();
    }
    let mut x: u64 = bytes;
    let mut e: u64 = 0;
    let mut d: u64 = 1;
    while x >= 1024
        invariant
            bytes > 0,
            size_writable(bytes as nat),
            e <= 3,
            d == pow1024(e as nat),
            d > 0,
            x == bytes / d,
            unit_exp(bytes as nat) == e + unit_exp(x as nat),
        decreases x,
    {
        proof {
            lemma_pow1024_small();
            assert(x * d <= bytes) by (nonlinear_arith)
                requires
                    x == bytes / d,
                    d > 0,
            ;
            if e == 3 {
                assert(1024 * d <= bytes) by (nonlinear_arith)
                    requires
                        x * d <= bytes,
                        x >= 1024,
                        d > 0,
                ;
                assert(false);
            }
            assert(e < 3);
            vstd::arithmetic::div_mod::lemma_div_denominator(bytes as int, d as int, 1024);
        }
        x = x / 1024;
        e = e + 1;
        d = d * 1024;
        proof {
            assert(pow1024(e as nat) == 1024 * pow1024((e - 1) as nat));
        }
    }
    let q = bytes * 10 / d;
    let r = bytes * 10 % d;
    let t = if 2 * r > d || (2 * r == d && q % 2 == 1) {
        q + 1
    } else {
        q
    };
    proof {
        assert(t == round_tenths(bytes as nat, pow1024(unit_exp(bytes as nat))));
    }
    let mut s = String::new();
    push_decimal(&mut s, t / 10);
    push_char(&mut s, '.');
    push_char(&mut s, digit_char(t % 10));
    push_char(&mut s, unit(e));
    assert(s@ =~= size_text(bytes as nat));
    s
}

/// The text of a memory block: the symbol, then used and total amounts.
pub open spec fn memory_text(icon: char, used: nat, total: nat) -> Seq<char> {
    seq![icon, ' '] + size_text(used) + seq!['/'] + size_text(total)
}

/// The memory block named `name` for `used` of `total` kilobytes.
pub open spec fn memory_block_view(icon: char, name: Seq<char>, used: nat, total: nat) -> BlockView {
    BlockView {
        name: Some(name),
        instance: Some("/proc/meminfo"@),
        ..text_block(memory_text(icon, used, total))
    }
}

/// The block that shows `used` of `total` kilobytes behind `icon`.
pub fn memory_block(icon: char, name: &str, used: u64, total: u64) -> (b: Block)
    requires
        size_writable(used as nat),
        size_writable(total as nat),
    ensures
        b@ == memory_block_view(icon, name@, used as nat, total as nat),
{
    let mut text = String::new();
    push_char(&mut text, icon);
    push_char(&mut text, ' ');
    let u = convert_bytes(used);
    text.append(u.as_str());
    push_char(&mut text, '/');
    let t = convert_bytes(total);
    text.append(t.as_str());
    assert(text@ =~= memory_text(icon, used as nat, total as nat));
    crate::codec::BlockBuilder::new(text).name(owned(name)).instance(owned("/proc/meminfo")).build()
}

/// Shows the memory and swap usage, in kilobytes, and gives back the
/// status line to write.
pub fn refresh_memory(
    controller: &mut Controller,
    used_memory: u64,
    total_memory: u64,
    used_swap: u64,
    total_swap: u64,
) -> (r: crate::codec::Element)
    requires
        old(controller).wf(),
        size_writable(used_memory as nat),
        size_writable(total_memory as nat),
        size_writable(used_swap as nat),
        size_writable(total_swap as nat),
    ensures
        final(controller).wf(),
        final(controller)@ == (ControllerView {
            ram: Some(
                memory_block_view(icon::RAM, "ram"@, used_memory as nat, total_memory as nat),
            ),
            swap: Some(
                memory_block_view(icon::FLOPPY, "swap"@, used_swap as nat, total_swap as nat),
            ),
            ..old(controller)@
        }),
        r matches crate::codec::Element::Blocks(b) && block_views(b@) == status_line(
            final(controller)@,
        ),
{
    let ram = memory_block(icon::RAM, "ram", used_memory, total_memory);
    controller.set_ram(ram);
    let swap = memory_block(icon::FLOPPY, "swap", used_swap, total_swap);
    controller.set_swap(swap);
    controller.update()
}

} // verus!
