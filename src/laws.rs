use vstd::prelude::*;

use crate::chip::{ChipState, FLAG, MEMORY_SIZE, STACK_SIZE, TEXTURE_SIZE};
use crate::cycle::fetched;

verus! {

/// Adding register `y` into register `x` leaves `(a + b) mod 256` in `x`
/// and sets the flag to 1 exactly when `a + b >= 256`, where `a` and `b` are
/// the registers' values before. The flag register as destination keeps
/// the flag instead.
pub proof fn law_add_wraps_with_carry(s: ChipState, x: int, y: int)
    requires
        s.wf(),
        0 <= x < FLAG,
        0 <= y < 16,
    ensures
        ({
            let (a, b) = (s.registers[x], s.registers[y]);
            let t = s.added(x, y);
            &&& t.registers[x] == (a + b) % 256
            &&& (t.registers[FLAG as int] == 1) == (a + b >= 256)
            &&& (t.registers[FLAG as int] == 0) == (a + b < 256)
        }),
{
}

/// Both subtractions leave the difference modulo 256 in register `x` and
/// set the flag to 1 exactly on a borrow: `x - y` when `a < b`, `y - x`
/// when `b < a`, where `a` and `b` are the registers' values before.
pub proof fn law_subtract_wraps_with_borrow(s: ChipState, x: int, y: int)
    requires
        s.wf(),
        0 <= x < FLAG,
        0 <= y < 16,
    ensures
        ({
            let (a, b) = (s.registers[x], s.registers[y]);
            let t = s.subtracted(x, x, y);
            let u = s.subtracted(x, y, x);
            &&& t.registers[x] == (a - b) % 256
            &&& (t.registers[FLAG as int] == 1) == (a < b)
            &&& (t.registers[FLAG as int] == 0) == (a >= b)
            &&& u.registers[x] == (b - a) % 256
            &&& (u.registers[FLAG as int] == 1) == (b < a)
            &&& (u.registers[FLAG as int] == 0) == (b >= a)
        }),
{
}

/// Dumping registers 0 to `k` to memory and loading them back from the same
/// address restores them.
pub proof fn law_dump_then_load(s: ChipState, k: int)
    requires
        s.wf(),
        0 <= k < 16,
        s.index_register + k + 1 <= MEMORY_SIZE,
    ensures
        s.dumped(k) is Ok,
        s.dumped(k)->Ok_0.loaded(k) is Ok,
        s.dumped(k)->Ok_0.loaded(k)->Ok_0.registers == s.registers,
        s.dumped(k)->Ok_0.loaded(k)->Ok_0.memory == s.dumped(k)->Ok_0.memory,
{
    let t = s.dumped(k)->Ok_0;
    assert(t.loaded(k)->Ok_0.registers =~= s.registers);
}

/// Drawing the same sprite twice at the same place restores the
/// framebuffer, and the second drawing reports a collision exactly when the
/// sprite covers a pixel that was off before the first.
pub proof fn law_draw_twice_restores(s: ChipState, x: int, y: int, n: int)
    requires
        s.wf(),
        0 <= x < FLAG,
        0 <= y < FLAG,
        0 <= n < 16,
        s.drawn(x, y, n) is Ok,
    ensures
        s.drawn(x, y, n)->Ok_0.drawn(x, y, n) is Ok,
        s.drawn(x, y, n)->Ok_0.drawn(x, y, n)->Ok_0.texture == s.texture,
        (s.drawn(x, y, n)->Ok_0.drawn(x, y, n)->Ok_0.registers[FLAG as int] == 1) == exists|
            p: int,
        |
            0 <= p < TEXTURE_SIZE && s.sprite_covers(
                s.registers[x] as int,
                s.registers[y] as int,
                n,
                p,
            ) && s.texture[p] == 0,
{
    let (rx, ry) = (s.registers[x] as int, s.registers[y] as int);
    let t = s.drawn(x, y, n)->Ok_0;
    let u = t.drawn(x, y, n)->Ok_0;
    assert(t.registers[x] == s.registers[x] && t.registers[y] == s.registers[y]);
    assert forall|p: int| 0 <= p < TEXTURE_SIZE implies u.texture[p] == s.texture[p] by {
        let v = s.texture[p];
        assert(v ^ 1u8 ^ 1u8 == v) by (bit_vector);
        assert(t.sprite_covers(rx, ry, n, p) == s.sprite_covers(rx, ry, n, p));
    }
    assert(u.texture =~= s.texture);
    assert forall|p: int| 0 <= p < TEXTURE_SIZE implies (t.sprite_covers(rx, ry, n, p)
        && t.texture[p] == 1) == (s.sprite_covers(rx, ry, n, p) && s.texture[p] == 0) by {
        let v = s.texture[p];
        assert((v ^ 1u8 == 1u8) == (v == 0u8)) by (bit_vector);
        assert(t.sprite_covers(rx, ry, n, p) == s.sprite_covers(rx, ry, n, p));
    }
    if t.collides(rx, ry, n) {
        let p = choose|p: int|
            0 <= p < TEXTURE_SIZE && t.sprite_covers(rx, ry, n, p) && t.texture[p] == 1;
        assert(s.sprite_covers(rx, ry, n, p) && s.texture[p] == 0);
    }
    if exists|p: int|
        0 <= p < TEXTURE_SIZE && s.sprite_covers(rx, ry, n, p) && s.texture[p] == 0 {
        let p = choose|p: int|
            0 <= p < TEXTURE_SIZE && s.sprite_covers(rx, ry, n, p) && s.texture[p] == 0;
        assert(t.sprite_covers(rx, ry, n, p) && t.texture[p] == 1);
    }
}

/// A call instruction followed, at its target, by a return brings the
/// program counter to the address after the call and the stack pointer
/// back to where it was.
pub proof fn law_call_then_return(s: ChipState, random_byte: u8)
    requires
        s.wf(),
        s.program_counter + 1 < MEMORY_SIZE,
        fetched(s) / 0x1000 == 0x2,
        s.stack_pointer < STACK_SIZE,
        s.memory[(fetched(s) % 0x1000) as int] == 0x00,
        s.memory[fetched(s) % 0x1000 + 1] == 0xEE,
        fetched(s) % 0x1000 + 1 < MEMORY_SIZE,
    ensures
        s.stepped(random_byte) is Ok,
        s.stepped(random_byte)->Ok_0.stepped(random_byte) is Ok,
        s.stepped(random_byte)->Ok_0.stepped(random_byte)->Ok_0.program_counter
            == s.program_counter + 2,
        s.stepped(random_byte)->Ok_0.stepped(random_byte)->Ok_0.stack_pointer
            == s.stack_pointer,
{
    let t = s.stepped(random_byte)->Ok_0;
    assert(t.program_counter == fetched(s) % 0x1000);
    assert(fetched(t) == 0x00EE);
}

} // verus!
