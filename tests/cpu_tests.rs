#![allow(unused_must_use)]

use chip8_core::cpu::Cpu;
use rand::Rng;

#[test]
fn test_cls_00e0() {
    let mut cpu = Cpu::new();
    cpu.load_rom(vec![0x00, 0xE0], 0x0200);
    cpu.screen
        .0
        .iter_mut()
        .for_each(|row| *row = rand::thread_rng().gen_range(0..=u64::MAX));
    cpu.tick();
    assert!(cpu.screen.0.iter().all(|row| *row == 0));
}
// SYS

#[test]
fn test_ret_00ee() {
    let mut cpu = Cpu::new();
    cpu.load_rom(vec![0x00, 0xEE], 0x0200);
    cpu.registers.sp = 0;
    cpu.registers.stack[0xF] = 0x0300;
    cpu.tick();
    assert_eq!(cpu.registers.pc, 0x302);
    assert_eq!(cpu.registers.sp, 0xF);
}
#[test]
fn test_ret_00ee_full() {
    let mut cpu = Cpu::new();
    cpu.load_rom(vec![0x00, 0xEE], 0x0200);
    cpu.registers.sp = 0x1;
    cpu.registers.stack[0x0] = 0x0300;
    cpu.tick();
    assert_eq!(cpu.registers.pc, 0x302);
    assert_eq!(cpu.registers.sp, 0x0);
}

#[test]
fn test_jp_1nnn() {
    let mut cpu = Cpu::new();
    cpu.load_rom(vec![0x11, 0x23], 0x0200);
    cpu.tick();
    assert_eq!(cpu.registers.pc, 0x123);
}

#[test]
fn test_call_2nnn() {
    let mut cpu = Cpu::new();
    cpu.load_rom(vec![0x21, 0x23], 0x0200);
    cpu.tick();
    assert_eq!(cpu.registers.pc, 0x123);
    assert_eq!(cpu.registers.sp, 1);
    assert_eq!(cpu.registers.stack[0], 0x0200);
}
#[test]
fn test_call_2nnn_full() {
    let mut cpu = Cpu::new();
    cpu.load_rom(vec![0x21, 0x23], 0x0200);
    cpu.registers.sp = 0xF;
    cpu.tick();
    assert_eq!(cpu.registers.pc, 0x123);
    assert_eq!(cpu.registers.sp, 0);
    assert_eq!(cpu.registers.stack[0xF], 0x0200);
}

#[test]
fn test_se_3xkk_no_skip() {
    let mut cpu = Cpu::new();
    cpu.load_rom(vec![0x30, 0x55], 0x0200);
    cpu.registers.v[0x0] = 0x15;
    cpu.tick();
    assert_eq!(cpu.registers.pc, 0x0202);
}
#[test]
fn test_se_3xkk_skip() {
    let mut cpu = Cpu::new();
    cpu.load_rom(vec![0x30, 0x55], 0x0200);
    cpu.registers.v[0x0] = 0x55;
    cpu.tick();
    assert_eq!(cpu.registers.pc, 0x0204);
}

#[test]
fn test_sne_3xkk_no_skip() {
    let mut cpu = Cpu::new();
    cpu.load_rom(vec![0x40, 0x55], 0x0200);
    cpu.registers.v[0x0] = 0x55;
    cpu.tick();
    assert_eq!(cpu.registers.pc, 0x0202);
}
#[test]
fn test_sne_4xkk_skip() {
    let mut cpu = Cpu::new();
    cpu.load_rom(vec![0x40, 0x55], 0x0200);
    cpu.registers.v[0x0] = 0x15;
    cpu.tick();
    assert_eq!(cpu.registers.pc, 0x0204);
}

#[test]
fn test_se_5xy0_no_skip() {
    let mut cpu = Cpu::new();
    cpu.load_rom(vec![0x50, 0x10], 0x0200);
    cpu.registers.v[0x0] = 0x28;
    cpu.registers.v[0x1] = 0x55;
    cpu.tick();
    assert_eq!(cpu.registers.pc, 0x0202);
}
#[test]
fn test_se_5xy0_skip() {
    let mut cpu = Cpu::new();
    cpu.load_rom(vec![0x50, 0x10], 0x0200);
    cpu.registers.v[0x0] = 0x15;
    cpu.registers.v[0x1] = 0x15;
    cpu.tick();
    assert_eq!(cpu.registers.pc, 0x0204);
}

#[test]
fn test_ld_6xkk() {
    let mut cpu = Cpu::new();
    cpu.load_rom(vec![0x60, 0x12], 0x0200);
    cpu.tick();
    assert_eq!(cpu.registers.v[0x0], 0x12);
}

#[test]
fn test_add_7xkk() {
    let mut cpu = Cpu::new();
    cpu.load_rom(vec![0x70, 0x12], 0x0200);
    cpu.registers.v[0x0] = 0x33;
    cpu.tick();
    assert_eq!(cpu.registers.v[0x0], 0x45);
    assert_eq!(cpu.registers.v[0xF], 0); // Unchanged
}

#[test]
fn test_ld_8xy0() {
    let mut cpu = Cpu::new();
    cpu.load_rom(vec![0x80, 0x10], 0x0200);
    cpu.registers.v[0x0] = 0x12;
    cpu.registers.v[0x1] = 0x34;
    cpu.tick();
    assert_eq!(cpu.registers.v[0x0], 0x34);
    assert_eq!(cpu.registers.v[0x1], 0x34); // Unchanged...
}

#[test]
fn test_or_8xy1() {
    let mut cpu = Cpu::new();
    cpu.load_rom(vec![0x80, 0x11], 0x0200);
    cpu.registers.v[0x0] = 0b10101010;
    cpu.registers.v[0x1] = 0b01010101;
    cpu.tick();
    assert_eq!(cpu.registers.v[0x0], 0xFF);
    assert_eq!(cpu.registers.v[0x1], 0b01010101);
}

#[test]
fn test_and_8xy2() {
    let mut cpu = Cpu::new();
    cpu.load_rom(vec![0x80, 0x12], 0x0200);
    cpu.registers.v[0x0] = 0b10101010;
    cpu.registers.v[0x1] = 0b01010101;
    cpu.tick();
    assert_eq!(cpu.registers.v[0x0], 0x0);
    assert_eq!(cpu.registers.v[0x1], 0b01010101);
}

#[test]
fn test_xor_8xy3() {
    let mut cpu = Cpu::new();
    cpu.load_rom(vec![0x80, 0x13], 0x0200);
    cpu.registers.v[0x0] = 0b10101111;
    cpu.registers.v[0x1] = 0b01011111;
    cpu.tick();
    assert_eq!(cpu.registers.v[0x0], 0b11110000);
    assert_eq!(cpu.registers.v[0x1], 0b01011111);
}

#[test]
fn test_add_8xy4_no_carry() {
    let mut cpu = Cpu::new();
    cpu.load_rom(vec![0x80, 0x14], 0x0200);
    cpu.registers.v[0x0] = 0x22;
    cpu.registers.v[0x1] = 0x41;
    cpu.tick();
    assert_eq!(cpu.registers.v[0x0], 0x63);
    assert_eq!(cpu.registers.v[0x1], 0x41);
    assert_eq!(cpu.registers.v[0xF], 0x0);
}
#[test]
fn test_add_8xy4_carry() {
    let mut cpu = Cpu::new();
    cpu.load_rom(vec![0x80, 0x14], 0x0200);
    cpu.registers.v[0x0] = 0xF3;
    cpu.registers.v[0x1] = 0x41;
    cpu.tick();
    assert_eq!(cpu.registers.v[0x0], 0x34);
    assert_eq!(cpu.registers.v[0x1], 0x41);
    assert_eq!(cpu.registers.v[0xF], 0x1);
}

#[test]
fn test_sub_8xy5_no_borrow() {
    let mut cpu = Cpu::new();
    cpu.load_rom(vec![0x80, 0x15], 0x0200);
    cpu.registers.v[0x0] = 0xF3;
    cpu.registers.v[0x1] = 0x20;
    cpu.tick();
    assert_eq!(cpu.registers.v[0x0], 0xD3);
    assert_eq!(cpu.registers.v[0x1], 0x20);
    assert_eq!(cpu.registers.v[0xF], 0x1);
}
#[test]
fn test_sub_8xy5_borrow() {
    let mut cpu = Cpu::new();
    cpu.load_rom(vec![0x80, 0x15], 0x0200);
    cpu.registers.v[0x0] = 0x25;
    cpu.registers.v[0x1] = 0x80;
    cpu.tick();
    assert_eq!(cpu.registers.v[0x0], 0xA5); // Wraps
    assert_eq!(cpu.registers.v[0x1], 0x80);
    assert_eq!(cpu.registers.v[0xF], 0x0);
}

#[test]
fn test_shr_8xy6_no_carry() {
    let mut cpu = Cpu::new();
    cpu.load_rom(vec![0x80, 0x16], 0x0200);
    if cpu.quirks.shifts_against_vy {
        cpu.registers.v[0x1] = 0b01111110;
    } else {
        cpu.registers.v[0x0] = 0b01111110;
    }
    cpu.tick();
    assert_eq!(cpu.registers.v[0x0], 0b00111111);
    assert_eq!(cpu.registers.v[0xF], 0x0);
}

#[test]
fn test_shr_8xy6_carry() {
    let mut cpu = Cpu::new();
    cpu.load_rom(vec![0x80, 0x16], 0x0200);
    if cpu.quirks.shifts_against_vy {
        cpu.registers.v[0x1] = 0b00111111;
    } else {
        cpu.registers.v[0x0] = 0b00111111;
    }
    cpu.tick();
    assert_eq!(cpu.registers.v[0x0], 0b00011111);
    assert_eq!(cpu.registers.v[0xF], 0x1);
}

#[test]
fn test_subn_8xy7_no_borrow() {
    let mut cpu = Cpu::new();
    cpu.load_rom(vec![0x80, 0x17], 0x0200);
    cpu.registers.v[0x0] = 0x25;
    cpu.registers.v[0x1] = 0x80;
    cpu.tick();
    assert_eq!(cpu.registers.v[0x0], 0x5B);
    assert_eq!(cpu.registers.v[0x1], 0x80);
    assert_eq!(cpu.registers.v[0xF], 0x1);
}
#[test]
fn test_subn_8xy7_borrow() {
    let mut cpu = Cpu::new();
    cpu.load_rom(vec![0x80, 0x17], 0x0200);
    cpu.registers.v[0x0] = 0xF3;
    cpu.registers.v[0x1] = 0x20;
    cpu.tick();
    assert_eq!(cpu.registers.v[0x0], 0x2D); // Wraps
    assert_eq!(cpu.registers.v[0x1], 0x20);
    assert_eq!(cpu.registers.v[0xF], 0x0);
}

#[test]
fn test_shl_8xye_no_carry() {
    let mut cpu = Cpu::new();
    cpu.load_rom(vec![0x80, 0x1E], 0x0200);
    if cpu.quirks.shifts_against_vy {
        cpu.registers.v[0x1] = 0b01111110;
    } else {
        cpu.registers.v[0x0] = 0b01111110;
    }
    cpu.tick();
    assert_eq!(cpu.registers.v[0x0], 0b11111100);
    assert_eq!(cpu.registers.v[0xF], 0x0);
}
#[test]
fn test_shl_8xye_carry() {
    let mut cpu = Cpu::new();
    cpu.load_rom(vec![0x80, 0x1E], 0x0200);
    if cpu.quirks.shifts_against_vy {
        cpu.registers.v[0x1] = 0b11111100;
    } else {
        cpu.registers.v[0x0] = 0b11111100;
    }
    cpu.tick();
    assert_eq!(cpu.registers.v[0x0], 0b11111000);
    assert_eq!(cpu.registers.v[0xF], 0x1);
}

#[test]
fn test_sne_9xy0_no_skip() {
    let mut cpu = Cpu::new();
    cpu.load_rom(vec![0x90, 0x10], 0x0200);
    cpu.registers.v[0x0] = 0x12;
    cpu.registers.v[0x1] = 0x12;
    cpu.tick();
    assert_eq!(cpu.registers.pc, 0x0202);
}
#[test]
fn test_sne_9xy0_skip() {
    let mut cpu = Cpu::new();
    cpu.load_rom(vec![0x90, 0x10], 0x0200);
    cpu.registers.v[0x0] = 0x12;
    cpu.registers.v[0x1] = 0x93;
    cpu.tick();
    assert_eq!(cpu.registers.pc, 0x0204);
}

#[test]
fn test_ld_annn() {
    let mut cpu = Cpu::new();
    cpu.load_rom(vec![0xa1, 0x23], 0x0200);
    cpu.tick();
    assert_eq!(cpu.registers.i, 0x123);
}

#[test]
fn test_jp_bnnn() {
    let mut cpu = Cpu::new();
    cpu.load_rom(vec![0xb4, 0x03], 0x0200);
    cpu.registers.v[0] = 0x53;
    cpu.tick();
    assert_eq!(cpu.registers.pc, 0x456);
}

#[test]
fn test_skp_ex9e_no_skip() {
    let mut cpu = Cpu::new();
    cpu.load_rom(vec![0xE0, 0x9E], 0x0200);
    cpu.registers.v[0] = 0x6;
    cpu.tick();
    assert_eq!(cpu.registers.pc, 0x0202);
}
#[test]
fn test_skp_ex9e_skip() {
    let mut cpu = Cpu::new();
    cpu.load_rom(vec![0xE0, 0x9E], 0x0200);
    cpu.registers.v[0] = 0x6;
    cpu.keypad.set_key(0x06, true);
    cpu.tick();
    assert_eq!(cpu.registers.pc, 0x0204);
}

#[test]
fn test_skp_exa1_no_skip() {
    let mut cpu = Cpu::new();
    cpu.load_rom(vec![0xE0, 0xA1], 0x0200);
    cpu.registers.v[0] = 0x6;
    cpu.tick();
    assert_eq!(cpu.registers.pc, 0x0204);
}
#[test]
fn test_skp_exa1_skip() {
    let mut cpu = Cpu::new();
    cpu.load_rom(vec![0xE0, 0xA1], 0x0200);
    cpu.registers.v[0] = 0x6;
    cpu.keypad.set_key(0x06, true);
    cpu.tick();
    assert_eq!(cpu.registers.pc, 0x0202);
}

#[test]
fn test_ld_fx0a() {
    let mut cpu = Cpu::new();
    cpu.load_rom(vec![0xF0, 0x0A], 0x0200);
    cpu.tick();
    assert_eq!(cpu.registers.pc, 0x0200);
    assert_eq!(cpu.registers.v[0], 0x0);
    cpu.tick();
    assert_eq!(cpu.registers.pc, 0x0200);
    assert_eq!(cpu.registers.v[0], 0x0);
    cpu.keypad.set_key(0x7, true);
    cpu.keypad.set_key(0x7, false);
    cpu.tick();
    assert_eq!(cpu.registers.pc, 0x0202);
    assert_eq!(cpu.registers.v[0], 0x7);
}

#[test]
fn test_ld_fx1e() {
    let mut cpu = Cpu::new();
    cpu.load_rom(vec![0xF0, 0x1E], 0x0200);
    cpu.registers.v[0] = 0x20;
    cpu.registers.i = 0x94;
    cpu.tick();
    assert_eq!(cpu.registers.v[0], 0x20);
    assert_eq!(cpu.registers.i, 0xB4);
}

#[test]
fn test_ld_fx33() {
    let mut cpu = Cpu::new();
    cpu.load_rom(vec![0xF0, 0x33], 0x0200);
    cpu.registers.v[0] = 0xC4; // 196
    cpu.registers.i = 0x500;
    cpu.tick();
    assert_eq!(cpu.memory.read(0x500), 1);
    assert_eq!(cpu.memory.read(0x501), 9);
    assert_eq!(cpu.memory.read(0x502), 6);
}

#[test]
fn test_ld_fx55_first_four() {
    let mut cpu = Cpu::new();
    cpu.load_rom(vec![0xF3, 0x55], 0x0200);
    cpu.registers.v[0] = 0x12;
    cpu.registers.v[1] = 0x34;
    cpu.registers.v[2] = 0x56;
    cpu.registers.v[3] = 0x78;
    cpu.registers.v[4] = 0x9a;
    cpu.registers.i = 0x500;
    cpu.tick();
    assert_eq!(cpu.memory.read(0x500), 0x12);
    assert_eq!(cpu.memory.read(0x501), 0x34);
    assert_eq!(cpu.memory.read(0x502), 0x56);
    assert_eq!(cpu.memory.read(0x503), 0x78);
    assert_eq!(cpu.memory.read(0x504), 0x00);
}
#[test]
fn test_ld_fx55_one() {
    let mut cpu = Cpu::new();
    cpu.load_rom(vec![0xF0, 0x55], 0x0200);
    cpu.registers.v[0] = 0x12;
    cpu.registers.v[1] = 0x34;
    cpu.registers.i = 0x500;
    cpu.tick();
    assert_eq!(cpu.memory.read(0x500), 0x12);
    assert_eq!(cpu.memory.read(0x501), 0x00);
}

#[test]
fn test_ld_fx65_first_four() {
    let mut cpu = Cpu::new();
    cpu.load_rom(vec![0xF3, 0x65], 0x0200);
    cpu.memory.write(0x500, 0x12);
    cpu.memory.write(0x501, 0x34);
    cpu.memory.write(0x502, 0x56);
    cpu.memory.write(0x503, 0x78);
    cpu.memory.write(0x504, 0x9a);
    cpu.registers.i = 0x500;
    cpu.tick();
    assert_eq!(cpu.registers.v[0x0], 0x12);
    assert_eq!(cpu.registers.v[0x1], 0x34);
    assert_eq!(cpu.registers.v[0x2], 0x56);
    assert_eq!(cpu.registers.v[0x3], 0x78);
    assert_eq!(cpu.registers.v[0x4], 0x00);
}
#[test]
fn test_ld_fx65_one() {
    let mut cpu = Cpu::new();
    cpu.load_rom(vec![0xF0, 0x65], 0x0200);
    cpu.memory.write(0x500, 0x12);
    cpu.memory.write(0x501, 0x34);
    cpu.registers.i = 0x500;
    cpu.tick();
    assert_eq!(cpu.registers.v[0x0], 0x12);
    assert_eq!(cpu.registers.v[0x1], 0x0);
}
