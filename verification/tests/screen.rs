use chip8::cpu::{convert_graphics, Cpu, PIXEL_OFF, PIXEL_ON};
use chip8::screen::{blit_sprite, GRAPHICS_HEIGHT, GRAPHICS_WIDTH};

fn machine(words: &[u16]) -> Cpu {
    let mut bytes = Vec::new();
    for word in words {
        bytes.push((word >> 8) as u8);
        bytes.push((word & 0xFF) as u8);
    }
    let mut cpu = Cpu::new();
    cpu.load_program(&bytes).unwrap();
    cpu
}

fn run(cpu: &mut Cpu, steps: usize) {
    for _ in 0..steps {
        cpu.step_with(0).unwrap();
    }
}

fn lit_pixels(cpu: &Cpu) -> Vec<(usize, usize)> {
    let mut lit = Vec::new();
    for y in 0..32 {
        for x in 0..64 {
            if cpu.graphics[y][x] {
                lit.push((x, y));
            }
        }
    }
    lit
}

#[test]
fn geometry() {
    assert_eq!(GRAPHICS_WIDTH, 64);
    assert_eq!(GRAPHICS_HEIGHT, 32);
}

#[test]
fn draws_a_glyph_at_the_origin() {
    let mut cpu = machine(&[0x6F07, 0xA000, 0xD015]);
    run(&mut cpu, 3);
    // The glyph for 0: F0 90 90 90 F0.
    assert_eq!(
        lit_pixels(&cpu),
        vec![
            (0, 0), (1, 0), (2, 0), (3, 0),
            (0, 1), (3, 1),
            (0, 2), (3, 2),
            (0, 3), (3, 3),
            (0, 4), (1, 4), (2, 4), (3, 4),
        ]
    );
    assert_eq!(cpu.register(0xF), 0);
    assert!(cpu.draw_flag);
    assert_eq!(cpu.program_counter(), 0x206);
    assert_eq!(cpu.index_register(), 0);
}

#[test]
fn draws_at_the_position_held_in_the_registers() {
    // The glyph for 1 (20 60 20 20 70) at (10, 20).
    let mut cpu = machine(&[0x600A, 0x6114, 0xA005, 0xD015]);
    run(&mut cpu, 4);
    assert_eq!(
        lit_pixels(&cpu),
        vec![(12, 20), (11, 21), (12, 21), (12, 22), (12, 23), (11, 24), (12, 24), (13, 24)]
    );
    assert_eq!(cpu.register(0xF), 0);
}

#[test]
fn drawing_twice_cancels_and_reports_the_collision() {
    let mut cpu = machine(&[0x6005, 0x6107, 0xA20C, 0xD013, 0xD013, 0x1200, 0xFFFF, 0xFF00]);
    run(&mut cpu, 4);
    assert_eq!(lit_pixels(&cpu).len(), 24);
    for y in 7..10 {
        for x in 5..13 {
            assert!(cpu.graphics[y][x]);
        }
    }
    assert_eq!(cpu.register(0xF), 0);
    cpu.draw_done();

    run(&mut cpu, 1);
    assert!(lit_pixels(&cpu).is_empty());
    assert_eq!(cpu.register(0xF), 1);
    assert!(cpu.draw_flag);
}

#[test]
fn drawing_twice_restores_a_screen_that_was_not_blank() {
    let mut cpu = machine(&[0xA000, 0xD005, 0x6002, 0x6101, 0xA005, 0xD015, 0xD015]);
    run(&mut cpu, 2);
    let before = cpu.graphics;
    run(&mut cpu, 4);
    assert_ne!(cpu.graphics, before);
    // The glyph for 1 at (2, 1) hits pixel (3, 2) of the glyph for 0.
    assert_eq!(cpu.register(0xF), 1);
    run(&mut cpu, 1);
    assert_eq!(cpu.graphics, before);
    assert_eq!(cpu.register(0xF), 1);
}

#[test]
fn second_drawing_does_not_collide_where_the_first_turned_every_pixel_off() {
    // Two rows of FF are lit; the same sprite is then drawn twice more.
    let mut cpu = machine(&[0xA20A, 0xD002, 0xD002, 0xD002, 0x1208, 0xFFFF]);
    run(&mut cpu, 2);
    assert_eq!(lit_pixels(&cpu).len(), 16);
    let before = cpu.graphics;
    run(&mut cpu, 1);
    assert_eq!(cpu.register(0xF), 1);
    assert!(lit_pixels(&cpu).is_empty());
    run(&mut cpu, 1);
    assert_eq!(cpu.register(0xF), 0);
    assert_eq!(cpu.graphics, before);
}

#[test]
fn sprite_wraps_around_both_edges() {
    let mut cpu = machine(&[0x603F, 0x611F, 0xA208, 0xD012, 0xFFFF]);
    run(&mut cpu, 4);
    let mut expected = Vec::new();
    for y in [0usize, 31] {
        for x in [0usize, 1, 2, 3, 4, 5, 6, 63] {
            expected.push((x, y));
        }
    }
    assert_eq!(lit_pixels(&cpu), expected);
    assert_eq!(cpu.register(0xF), 0);
}

#[test]
fn coordinates_beyond_the_screen_are_taken_modulo_its_size() {
    let mut at_edge = machine(&[0x603F, 0x611F, 0xA208, 0xD012, 0xFFFF]);
    let mut beyond = machine(&[0x60FF, 0x61FF, 0xA208, 0xD012, 0xFFFF]);
    run(&mut at_edge, 4);
    run(&mut beyond, 4);
    assert_eq!(at_edge.graphics, beyond.graphics);

    let mut small = machine(&[0x6003, 0x6102, 0xA000, 0xD015]);
    let mut large = machine(&[0x6043, 0x6122, 0xA000, 0xD015]);
    run(&mut small, 4);
    run(&mut large, 4);
    assert_eq!(small.graphics, large.graphics);
}

#[test]
fn collision_flag_is_sticky_across_the_sprite() {
    // Light one pixel at (0, 0); then draw three rows of 80 over it: only
    // the first row collides.
    let mut cpu = machine(&[0xA20A, 0xD001, 0xD003, 0x1206, 0x0000, 0x8080, 0x8000]);
    run(&mut cpu, 3);
    assert_eq!(cpu.register(0xF), 1);
    assert_eq!(lit_pixels(&cpu), vec![(0, 1), (0, 2)]);
}

#[test]
fn drawing_without_collision_clears_the_flag() {
    let mut cpu = machine(&[0x6F01, 0xA000, 0xD015]);
    run(&mut cpu, 3);
    assert_eq!(cpu.register(0xF), 0);
}

#[test]
fn drawing_no_rows_still_raises_the_draw_flag() {
    let mut cpu = machine(&[0x6F01, 0xAFFF, 0xD000]);
    run(&mut cpu, 3);
    assert!(lit_pixels(&cpu).is_empty());
    assert!(cpu.draw_flag);
    assert_eq!(cpu.register(0xF), 0);
    assert_eq!(cpu.program_counter(), 0x206);
}

#[test]
fn drawing_zero_bits_still_raises_the_draw_flag() {
    let mut cpu = machine(&[0xA300, 0xD005]);
    run(&mut cpu, 2);
    assert!(lit_pixels(&cpu).is_empty());
    assert!(cpu.draw_flag);
}

#[test]
fn the_flag_register_as_a_coordinate_reads_as_zero() {
    let mut cpu = machine(&[0x6F0A, 0x6105, 0xA208, 0xDF11, 0x8000]);
    run(&mut cpu, 4);
    assert_eq!(lit_pixels(&cpu), vec![(0, 5)]);
}

#[test]
fn clear_turns_every_pixel_off_and_raises_the_draw_flag() {
    let mut cpu = machine(&[0xA000, 0xD005, 0x00E0]);
    run(&mut cpu, 2);
    cpu.draw_done();
    run(&mut cpu, 1);
    assert!(lit_pixels(&cpu).is_empty());
    assert!(cpu.draw_flag);
    assert_eq!(cpu.program_counter(), 0x206);
}

#[test]
fn blit_sprite_composites_memory_onto_a_framebuffer() {
    let mut graphics = [[false; GRAPHICS_WIDTH]; GRAPHICS_HEIGHT];
    let mut memory = [0u8; 4096];
    memory[100] = 0b1010_0000;
    memory[101] = 0b0000_0001;
    assert!(!blit_sprite(&mut graphics, &memory, 100, 2, 62, 31));
    let mut lit = Vec::new();
    for y in 0..32 {
        for x in 0..64 {
            if graphics[y][x] {
                lit.push((x, y));
            }
        }
    }
    assert_eq!(lit, vec![(5, 0), (0, 31), (62, 31)]);
    // One row that hits (62, 31) and lights (63, 31).
    memory[102] = 0b1100_0000;
    assert!(blit_sprite(&mut graphics, &memory, 102, 1, 62, 31));
    assert!(!graphics[31][62]);
    assert!(graphics[31][63]);
    assert!(!blit_sprite(&mut graphics, &memory, 0, 0, 0, 0));
}

#[test]
fn blit_sprite_takes_up_to_thirty_two_rows() {
    let mut graphics = [[false; GRAPHICS_WIDTH]; GRAPHICS_HEIGHT];
    let memory = [0x80u8; 4096];
    assert!(!blit_sprite(&mut graphics, &memory, 4064, 32, 0, 5));
    for y in 0..32 {
        assert!(graphics[y][0]);
        assert!(!graphics[y][1]);
    }
}

#[test]
fn convert_graphics_writes_one_colour_per_pixel() {
    assert_eq!(PIXEL_ON, 0x004e6563);
    assert_eq!(PIXEL_OFF, 0x00a0a293);
    let mut cpu = machine(&[0x6001, 0x6102, 0xA000, 0xD015]);
    run(&mut cpu, 4);
    let mut buffer = vec![0u32; 64 * 32 + 2];
    buffer[64 * 32] = 7;
    buffer[64 * 32 + 1] = 8;
    convert_graphics(&mut cpu, &mut buffer);
    for y in 0..32 {
        for x in 0..64 {
            let expected = if cpu.graphics[y][x] { 0x004e6563 } else { 0x00a0a293 };
            assert_eq!(buffer[y * 64 + x], expected);
        }
    }
    assert_eq!(buffer[2 * 64 + 1], 0x004e6563);
    assert_eq!(buffer[2 * 64 + 5], 0x00a0a293);
    assert_eq!(buffer.iter().filter(|&&c| c == 0x004e6563).count(), 14);
    assert_eq!(&buffer[64 * 32..], &[7, 8]);
    assert!(cpu.draw_flag);
}
