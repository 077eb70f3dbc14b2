//! What holds of every machine state and every program.

use vstd::prelude::*;
use crate::fault::Fault;
use crate::instruction::{decode_spec, Instruction};
use crate::machine::{first_pressed_from, Machine, MEMORY_SIZE};
use crate::screen::{
    blit, collides, screen_wf, sprite_bit, sprite_covers, GRAPHICS_HEIGHT, GRAPHICS_WIDTH,
};

verus! {

/// A step that succeeds leaves the machine in a valid state: the program
/// counter and the index register still point into memory.
pub proof fn lemma_step_keeps_wf(s: Machine, random: u8, after: Machine, tone: bool)
    requires
        s.wf(),
        s.step(random) == Ok::<(Machine, bool), Fault>((after, tone)),
    ensures
        after.wf(),
{
}

/// A step advances the program counter by exactly 2, except that a jump,
/// a call and a return set it, a skip advances it by 4 where its condition
/// holds, and the key wait leaves it in place while no key is down.
pub proof fn lemma_step_moves_program_counter(
    s: Machine,
    random: u8,
    instruction: Instruction,
    after: Machine,
    tone: bool,
)
    requires
        s.wf(),
        !s.done,
        decode_spec(s.word_at(s.pc)) == Some(instruction),
        s.step(random) == Ok::<(Machine, bool), Fault>((after, tone)),
    ensures
        after.pc == s.next_pc(instruction),
        instruction.is_sequential() ==> after.pc == s.pc + 2,
        instruction.is_skip() ==> after.pc == s.pc + 2 || after.pc == s.pc + 4,
{
}

/// Drawing the same sprite twice at the same place gives back the screen
/// as it was, and the second drawing reports a collision exactly if the
/// first one turned a pixel on.
pub proof fn lemma_blit_twice_restores(g: Seq<Seq<bool>>, sprite: Seq<u8>, ox: int, oy: int)
    requires
        screen_wf(g),
    ensures
        blit(blit(g, sprite, ox, oy), sprite, ox, oy) == g,
        collides(blit(g, sprite, ox, oy), sprite, ox, oy) <==> exists|px: int, py: int|
            0 <= px < GRAPHICS_WIDTH && 0 <= py < GRAPHICS_HEIGHT && !g[py][px]
                && #[trigger] sprite_covers(sprite, ox, oy, px, py),
{
    let once = blit(g, sprite, ox, oy);
    assert(blit(once, sprite, ox, oy) =~~= g);
    if collides(once, sprite, ox, oy) {
        let (px, py) = choose|px: int, py: int|
            0 <= px < GRAPHICS_WIDTH && 0 <= py < GRAPHICS_HEIGHT && once[py][px]
                && #[trigger] sprite_covers(sprite, ox, oy, px, py);
        assert(!g[py][px] && sprite_covers(sprite, ox, oy, px, py));
    }
    if exists|px: int, py: int|
        0 <= px < GRAPHICS_WIDTH && 0 <= py < GRAPHICS_HEIGHT && !g[py][px]
            && #[trigger] sprite_covers(sprite, ox, oy, px, py) {
        let (px, py) = choose|px: int, py: int|
            0 <= px < GRAPHICS_WIDTH && 0 <= py < GRAPHICS_HEIGHT && !g[py][px]
                && #[trigger] sprite_covers(sprite, ox, oy, px, py);
        assert(once[py][px] && sprite_covers(sprite, ox, oy, px, py));
    }
}

/// The draw instruction executed twice in a row restores the screen, and
/// sets `VF` the second time exactly if the first drawing turned a pixel on.
pub proof fn lemma_draw_twice(s: Machine, x: u8, y: u8, n: u8)
    requires
        s.wf(),
        x < 16,
        y < 16,
    ensures
        s.draw(x, y, n).draw(x, y, n).graphics == s.graphics,
        s.draw(x, y, n).draw(x, y, n).v(0xF) == 1 <==> exists|px: int, py: int|
            0 <= px < GRAPHICS_WIDTH && 0 <= py < GRAPHICS_HEIGHT && !s.graphics[py][px]
                && #[trigger] sprite_covers(
                s.sprite(n),
                s.set_flag(false).v(x) as int,
                s.set_flag(false).v(y) as int,
                px,
                py,
            ),
{
    let once = s.draw(x, y, n);
    let ox = s.set_flag(false).v(x) as int;
    let oy = s.set_flag(false).v(y) as int;
    lemma_blit_twice_restores(s.graphics, s.sprite(n), ox, oy);
}

/// Bit `col` of sprite row `row` is composited at column `(ox + col) mod
/// width` of row `(oy + row) mod height`: a sprite that reaches past an
/// edge of the screen continues at the opposite edge.
pub proof fn lemma_sprite_pixel_wraps(
    g: Seq<Seq<bool>>,
    sprite: Seq<u8>,
    ox: int,
    oy: int,
    row: int,
    col: int,
)
    requires
        screen_wf(g),
        0 <= ox,
        0 <= oy,
        0 <= row < sprite.len() <= GRAPHICS_HEIGHT,
        0 <= col < 8,
    ensures
        ({
            let px = (ox + col) % (GRAPHICS_WIDTH as int);
            let py = (oy + row) % (GRAPHICS_HEIGHT as int);
            &&& 0 <= px < GRAPHICS_WIDTH
            &&& 0 <= py < GRAPHICS_HEIGHT
            &&& blit(g, sprite, ox, oy)[py][px] == (g[py][px] != sprite_bit(sprite[row], col))
        }),
{
}

/// A jump to its own address halts the machine where it stands.
pub proof fn lemma_self_jump_halts(s: Machine, random: u8)
    requires
        s.wf(),
        !s.done,
        s.pc + 1 < MEMORY_SIZE,
        decode_spec(s.word_at(s.pc)) == Some(Instruction::Jump(s.pc as u16)),
    ensures
        s.step(random) == Ok::<(Machine, bool), Fault>(
            (Machine { done: true, ..s.ticked() }, s.tone_due()),
        ),
{
}

/// A halted machine stays as it is, whatever the number of steps.
pub proof fn lemma_halted_stays(s: Machine, randoms: Seq<u8>)
    requires
        s.done,
    ensures
        s.run(randoms) == (s, Ok::<nat, Fault>(0)),
    decreases randoms.len(),
{
    if randoms.len() > 0 {
        lemma_halted_stays(s, randoms.drop_last());
    }
}

/// A batch of one step is that step.
pub proof fn lemma_run_one(s: Machine, random: u8)
    ensures
        s.run(seq![random]) == match s.step(random) {
            Ok((after, tone)) => (after, Ok::<nat, Fault>(if tone { 1nat } else { 0 })),
            Err(fault) => (s, Err::<nat, Fault>(fault)),
        },
{
    let randoms = seq![random];
    assert(randoms.drop_last() =~= Seq::<u8>::empty());
    assert(s.run(randoms.drop_last()) == (s, Ok::<nat, Fault>(0)));
}

/// A batch of steps is its first part followed, from the state that this
/// part reached, by the rest: the tones add up, and a fault in the first
/// part ends the batch there.
pub proof fn lemma_run_in_two_parts(s: Machine, first: Seq<u8>, rest: Seq<u8>)
    ensures
        s.run(first + rest) == match s.run(first) {
            (middle, Ok(tones)) => match middle.run(rest) {
                (end, Ok(more)) => (end, Ok::<nat, Fault>(tones + more)),
                (end, Err(fault)) => (end, Err::<nat, Fault>(fault)),
            },
            (middle, Err(fault)) => (middle, Err::<nat, Fault>(fault)),
        },
    decreases rest.len(),
{
    if rest.len() == 0 {
        assert(first + rest =~= first);
    } else {
        assert((first + rest).drop_last() =~= first + rest.drop_last());
        lemma_run_in_two_parts(s, first, rest.drop_last());
    }
}

/// `first_pressed_from` finds a key that is down and has none down
/// between `from` and it, or finds none where none is down from `from` on.
pub proof fn lemma_first_pressed_from(keys: Seq<bool>, from: int)
    requires
        0 <= from,
    ensures
        match first_pressed_from(keys, from) {
            Some(key) => from <= key < keys.len() && keys[key] && forall|j: int|
                from <= j < key ==> !keys[j],
            None => forall|j: int| from <= j < keys.len() ==> !keys[j],
        },
    decreases keys.len() - from,
{
    if from < keys.len() && !keys[from] {
        lemma_first_pressed_from(keys, from + 1);
    }
}

/// The key wait does not advance the program counter while no key is
/// down; once a key is down it stores the lowest such key in `Vx` and
/// advances by exactly 2.
pub proof fn lemma_key_wait(s: Machine, random: u8, x: u8, key: int)
    requires
        s.wf(),
        !s.done,
        s.pc + 1 < MEMORY_SIZE,
        decode_spec(s.word_at(s.pc)) == Some(Instruction::Keyd(x)),
    ensures
        (forall|k: int| 0 <= k < 16 ==> !s.keys[k]) ==> s.step(random) == Ok::<
            (Machine, bool),
            Fault,
        >((s.ticked(), s.tone_due())),
        0 <= key < 16 && s.keys[key] && (forall|k: int| 0 <= k < key ==> !s.keys[k]) && s.pc + 2
            < MEMORY_SIZE ==> s.step(random) == Ok::<(Machine, bool), Fault>(
            (s.ticked().set_v(x, key as u8).advance(2), s.tone_due()),
        ),
{
    lemma_first_pressed_from(s.keys, 0);
}

/// Registers `V0..=Vx` stored at `I` and loaded again from the same `I`
/// with the same `x` have their stored values, whatever happened to the
/// registers in between.
pub proof fn lemma_store_then_load(s: Machine, t: Machine, x: u8)
    requires
        s.wf(),
        t.wf(),
        x < 16,
        s.index + x < MEMORY_SIZE,
        t.memory == s.mstor(x).memory,
        t.index == s.index,
    ensures
        forall|i: int| 0 <= i <= x ==> t.mread(x).registers[i] == s.registers[i],
{
}

/// A step that changes the screen raises `draw_flag`, and no step lowers it.
pub proof fn lemma_step_raises_draw_flag(s: Machine, random: u8, after: Machine, tone: bool)
    requires
        s.wf(),
        s.step(random) == Ok::<(Machine, bool), Fault>((after, tone)),
    ensures
        after.graphics != s.graphics ==> after.draw_flag,
        s.draw_flag ==> after.draw_flag,
{
}

/// A step writes to memory only in a decimal store, at `I..I+3`, and in a
/// register store, at `I..=I+x`. In particular the font table survives
/// every step of a program that stores nothing below address 80.
pub proof fn lemma_step_memory_frame(
    s: Machine,
    random: u8,
    instruction: Instruction,
    after: Machine,
    tone: bool,
    address: int,
)
    requires
        s.wf(),
        !s.done,
        decode_spec(s.word_at(s.pc)) == Some(instruction),
        s.step(random) == Ok::<(Machine, bool), Fault>((after, tone)),
        0 <= address < MEMORY_SIZE,
    ensures
        !(instruction is Bcd) && !(instruction is Mstor) ==> after.memory == s.memory,
        instruction is Bcd && !(s.index <= address < s.index + 3) ==> after.memory[address]
            == s.memory[address],
        instruction matches Instruction::Mstor(x) && !(s.index <= address <= s.index + x)
            ==> after.memory[address] == s.memory[address],
{
}

} // verus!
