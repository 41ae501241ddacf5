//! Tests of the load and store instructions.

use mos6502::cpu::{Cpu, MEM_SZ};
use mos6502::decode::{LDA_A1, LDA_A5, LDA_A9, LDA_AD, LDA_B1, LDA_B5, LDA_B9, LDA_BD, LDX_A2, LDX_A6, LDX_AE, LDX_B6, LDX_BE, LDY_A0, LDY_A4, LDY_AC, LDY_B4, LDY_BC, STA_81, STA_85, STA_8D, STA_91, STA_95, STA_99, STA_9D, STX_86, STX_8E, STX_96, STY_84, STY_8C, STY_94};
use mos6502::flags::{N_NEGATIVE, Z_ZERO};

fn lda_a9_case(mem: &[u8], exp_a: u8, exp_p: u8) {
    let mut cpu = Cpu::new();
    cpu.patch_memory(0, mem);
    assert!(cpu.a == 0);
    assert!(cpu.p == 0);
    cpu.step().unwrap();
    assert!(cpu.a == exp_a);
    assert!(cpu.p == exp_p);
}

#[test]
fn test_lda_a9() { // LDA #$nn
    let mem1 = &[LDA_A9, 0x55];
    let mem2 = &[LDA_A9, 0];    // LDA #0 // Z_ZERO
    let mem3 = &[LDA_A9, 0x80]; // N_NEGATIVE
    let mem4 = &[LDA_A9, 0xAA];

    lda_a9_case(mem1, 0x55, 0);
    lda_a9_case(mem2, 0x00, Z_ZERO);
    lda_a9_case(mem3, 0x80, N_NEGATIVE);
    lda_a9_case(mem4, 0xAA, N_NEGATIVE);
}

fn lda_ad_case(mem: &[u8], addr: usize, exp_a: u8, exp_p: u8) {
    let mut cpu = Cpu::new();
    cpu.patch_memory(0, mem);
    cpu.patch_memory(addr, &[exp_a]);
    assert!(cpu.a == 0);
    assert!(cpu.p == 0);
    cpu.step().unwrap();
    assert!(cpu.a == exp_a);
    assert!(cpu.p == exp_p);
}

#[test]
fn test_lda_ad() { // LDA $nnnn
    let mem = &[LDA_AD, 0x20, 0x40];
    lda_ad_case(mem, 0x4020, 0x00, Z_ZERO);
    lda_ad_case(mem, 0x4020, 0x80, N_NEGATIVE);
    lda_ad_case(mem, 0x4020, 0x55, 0);
    lda_ad_case(mem, 0x4020, 0xAA, N_NEGATIVE);
}

fn lda_bd_case(mem: &[u8], addr: usize, x: u8, exp_a: u8, exp_p: u8) {
    let mut cpu = Cpu::new();
    cpu.patch_memory(0, mem);
    cpu.patch_memory(addr + x as usize, &[exp_a]);
    cpu.x = x;
    assert!(cpu.a == 0);
    assert!(cpu.p == 0);
    cpu.step().unwrap();
    assert!(cpu.a == exp_a);
    assert!(cpu.p == exp_p);
}

#[test]
fn test_lda_bd() { // LDA $nnnn,X
    let mem = &[LDA_BD, 0x00, 0x80];
    lda_bd_case(mem, 0x8000, 0x15, 0x00, Z_ZERO);
    lda_bd_case(mem, 0x8000, 0x15, 0x80, N_NEGATIVE);
    lda_bd_case(mem, 0x8000, 0x15, 0x55, 0);
    lda_bd_case(mem, 0x8000, 0x15, 0xAA, N_NEGATIVE);
}

fn lda_b9_case(mem: &[u8], addr: usize, y: u8, exp_a: u8, exp_p: u8) {
    let mut cpu = Cpu::new();
    cpu.patch_memory(0, mem);
    cpu.patch_memory(addr + y as usize, &[exp_a]);
    cpu.y = y;
    assert!(cpu.a == 0);
    assert!(cpu.p == 0);
    cpu.step().unwrap();
    assert!(cpu.a == exp_a);
    assert!(cpu.p == exp_p);
}

#[test]
fn test_lda_b9() { // LDA $nnnn,Y
    let mem = &[LDA_B9, 0x00, 0x80];
    lda_b9_case(mem, 0x8000, 0x15, 0x00, Z_ZERO);
    lda_b9_case(mem, 0x8000, 0x15, 0x80, N_NEGATIVE);
    lda_b9_case(mem, 0x8000, 0x15, 0x55, 0);
    lda_b9_case(mem, 0x8000, 0x15, 0xAA, N_NEGATIVE);
}

fn lda_a5_case(mem: &[u8], addr: usize, exp_a: u8, exp_p: u8) {
    let mut cpu = Cpu::new();
    cpu.patch_memory(0, mem);
    cpu.patch_memory(addr, &[exp_a]);
    assert!(cpu.a == 0);
    assert!(cpu.p == 0);
    cpu.step().unwrap();
    assert!(cpu.a == exp_a);
    assert!(cpu.p == exp_p);
}

#[test]
fn test_lda_a5() { // LDA $nn
    let mem = &[LDA_A5, 0x28];
    lda_a5_case(mem, 0x0028, 0x00, Z_ZERO);
    lda_a5_case(mem, 0x0028, 0x80, N_NEGATIVE);
    lda_a5_case(mem, 0x0028, 0x55, 0);
    lda_a5_case(mem, 0x0028, 0xAA, N_NEGATIVE);
}

fn lda_b5_case(mem: &[u8], x: u8, exp_a: u8, exp_p: u8) {
    let mut cpu = Cpu::new();
    cpu.patch_memory(0, mem);
    cpu.x = x;
    assert!(cpu.a == 0);
    assert!(cpu.p == 0);
    cpu.step().unwrap();
    assert!(cpu.a == exp_a);
    assert!(cpu.p == exp_p);
}

#[test]
fn test_lda_b5() { // LDA $nn,X
    let mut mem: [u8; MEM_SZ] = [0; MEM_SZ];
    mem[0] = LDA_B5;
    mem[1] = 0x28;

    mem[0x28 + 0x03] = 0x00;
    lda_b5_case(&mem, 0x03, 0x00, Z_ZERO);

    mem[0x28 + 0x03] = 0x80;
    lda_b5_case(&mem, 0x03, 0x80, N_NEGATIVE);

    mem[0x28 + 0x03] = 0x55;
    lda_b5_case(&mem, 0x03, 0x55, 0);

    mem[0x28 + 0x03] = 0xAA;
    lda_b5_case(&mem, 0x03, 0xAA, N_NEGATIVE);
}

fn lda_a1_case(mem: &[u8], x: u8, exp_a: u8, exp_p: u8) {
    let mut cpu = Cpu::new();
    cpu.patch_memory(0, mem);
    cpu.x = x;
    assert!(cpu.a == 0);
    assert!(cpu.p == 0);
    cpu.step().unwrap();
    assert!(cpu.a == exp_a);
    assert!(cpu.p == exp_p);
}

#[test]
fn test_lda_a1() {
    //                0     1     2     3     4
    let mem1 = &[LDA_A1, 0x01, 0x04, 0x00, 0x00]; // LDA ($nn,X)
    let mem2 = &[LDA_A1, 0x01, 0x04, 0x00, 0x80]; // LDA ($nn,X)
    let mem3 = &[LDA_A1, 0x01, 0x04, 0x00, 0x55]; // LDA ($nn,X)
    let mem4 = &[LDA_A1, 0x01, 0x04, 0x00, 0xAA]; // LDA ($nn,X)

    //  mem     x exp_a  exp_p
    lda_a1_case(mem1, 0x01, 0x00, Z_ZERO);
    lda_a1_case(mem2, 0x01, 0x80, N_NEGATIVE);
    lda_a1_case(mem3, 0x01, 0x55, 0);
    lda_a1_case(mem4, 0x01, 0xAA, N_NEGATIVE);
}

fn lda_b1_case(mem: &[u8], y: u8, exp_a: u8, exp_p: u8) {
    let mut cpu = Cpu::new();
    cpu.patch_memory(0, mem);
    cpu.y = y;
    assert!(cpu.a == 0);
    assert!(cpu.p == 0);
    cpu.step().unwrap();
    assert!(cpu.a == exp_a);
    assert!(cpu.p == exp_p);
}

#[test]
fn test_lda_b1() {
    // TODO: FIXME:
    // Add more test: 2 bytes in page zero points to memory not in page zero
    // TODO Expand this tests so that memory address is outside of page zero

    //               0     1     2     3     4
    let mem1 = &[LDA_B1, 0x02, 0x01, 0x00, 0x00]; // LDA ($nn),Y
    let mem2 = &[LDA_B1, 0x02, 0x03, 0x00, 0x80]; // LDA ($nn),Y
    let mem3 = &[LDA_B1, 0x02, 0x01, 0x00, 0x55]; // LDA ($nn),Y
    let mem4 = &[LDA_B1, 0x02, 0x03, 0x00, 0xAA]; // LDA ($nn),Y

    //  mem     y exp_a  exp_p
    lda_b1_case(mem1, 0x03, 0x00, Z_ZERO);
    lda_b1_case(mem2, 0x01, 0x80, N_NEGATIVE);
    lda_b1_case(mem3, 0x03, 0x55, 0);
    lda_b1_case(mem4, 0x01, 0xAA, N_NEGATIVE);
}

fn ldx_a2_case(mem: &[u8], exp_x: u8, exp_p: u8) {
    let mut cpu = Cpu::new();
    cpu.patch_memory(0, mem);
    assert!(cpu.x == 0);
    assert!(cpu.p == 0);
    cpu.step().unwrap();
    assert!(cpu.x == exp_x);
    assert!(cpu.p == exp_p);
}

#[test]
fn test_ldx_a2() { // LDX #$nn
    let mem1 = &[LDX_A2, 0];
    let mem2 = &[LDX_A2, 0x55];
    let mem3 = &[LDX_A2, 0x80];
    let mem4 = &[LDX_A2, 0xAA];

    ldx_a2_case(mem1, 0, Z_ZERO);
    ldx_a2_case(mem2, 0x55, 0);
    ldx_a2_case(mem3, 0x80, N_NEGATIVE);
    ldx_a2_case(mem4, 0xAA, N_NEGATIVE);
}

fn ldx_ae_case(mem: &[u8], exp_x: u8, exp_p: u8) {
    let mut cpu = Cpu::new();
    cpu.patch_memory(0, mem);
    assert!(cpu.x == 0);
    assert!(cpu.p == 0);
    cpu.step().unwrap();
    assert!(cpu.x == exp_x);
    assert!(cpu.p == exp_p);
}

#[test]
fn test_ldx_ae() { // LDX $nnnn
    let mut mem: [u8; MEM_SZ] = [0; MEM_SZ];
    mem[0] = LDX_AE;
    mem[1] = 0x20;
    mem[2] = 0x40;

    mem[0x4020] = 0;
    ldx_ae_case(&mem, 0x00, Z_ZERO);

    mem[0x4020] = 0x80;
    ldx_ae_case(&mem, 0x80, N_NEGATIVE);

    mem[0x4020] = 0x55;
    ldx_ae_case(&mem, 0x55, 0);

    mem[0x4020] = 0xAA;
    ldx_ae_case(&mem, 0xAA, N_NEGATIVE);
}

fn ldx_be_case(mem: &[u8], y: u8, exp_x: u8, exp_p: u8) {
    let mut cpu = Cpu::new();
    cpu.patch_memory(0, mem);
    cpu.y = y;
    assert!(cpu.x == 0);
    assert!(cpu.p == 0);
    cpu.step().unwrap();
    assert!(cpu.x == exp_x);
    assert!(cpu.p == exp_p);
}

#[test]
fn test_ldx_be() { // LDX $nnnn,Y
    let mut mem: [u8; MEM_SZ] = [0; MEM_SZ];
    mem[0] = LDX_BE;
    mem[1] = 0x60;
    mem[2] = 0x70;

    mem[0x7075] = 0;
    ldx_be_case(&mem, 0x15, 0x00, Z_ZERO);

    mem[0x7075] = 0x55;
    ldx_be_case(&mem, 0x15, 0x55, 0);

    mem[0x7075] = 0x80;
    ldx_be_case(&mem, 0x15, 0x80, N_NEGATIVE);

    mem[0x7075] = 0xAA;
    ldx_be_case(&mem, 0x15, 0xAA, N_NEGATIVE);
}

fn ldx_a6_case(mem: &[u8], exp_x: u8, exp_p: u8) {
    let mut cpu = Cpu::new();
    cpu.patch_memory(0, mem);
    assert!(cpu.x == 0);
    assert!(cpu.p == 0);
    cpu.step().unwrap();
    assert!(cpu.x == exp_x);
    assert!(cpu.p == exp_p);
}

#[test]
fn test_ldx_a6() { // LDX $nn
    let mut mem: [u8; MEM_SZ] = [0; MEM_SZ];
    mem[0] = LDX_A6;
    mem[1] = 0x60;

    mem[0x0060] = 0;
    ldx_a6_case(&mem, 0x00, Z_ZERO);

    mem[0x0060] = 0x55;
    ldx_a6_case(&mem, 0x55, 0);

    mem[0x0060] = 0x80;
    ldx_a6_case(&mem, 0x80, N_NEGATIVE);

    mem[0x0060] = 0xAA;
    ldx_a6_case(&mem, 0xAA, N_NEGATIVE);
}

fn ldx_b6_case(mem: &[u8], y: u8, exp_x: u8, exp_p: u8) {
    let mut cpu = Cpu::new();
    cpu.patch_memory(0, mem);
    cpu.y = y;
    assert!(cpu.x == 0);
    assert!(cpu.p == 0);
    cpu.step().unwrap();
    assert!(cpu.x == exp_x);
    assert!(cpu.p == exp_p);
}

#[test]
fn test_ldx_b6() { // LDX $nn,Y
    let mut mem: [u8; MEM_SZ] = [0; MEM_SZ];
    mem[0] = LDX_B6;
    mem[1] = 0x60;

    mem[0x0075] = 0;
    ldx_b6_case(&mem, 0x15, 0x00, Z_ZERO);

    mem[0x0075] = 0x55;
    ldx_b6_case(&mem, 0x15, 0x55, 0);

    mem[0x0075] = 0x80;
    ldx_b6_case(&mem, 0x15, 0x80, N_NEGATIVE);

    mem[0x0075] = 0xAA;
    ldx_b6_case(&mem, 0x15, 0xAA, N_NEGATIVE);
}

fn ldy_a0_case(mem: &[u8], exp_y: u8, exp_p: u8) {
    let mut cpu = Cpu::new();
    cpu.patch_memory(0, mem);
    assert!(cpu.y == 0);
    assert!(cpu.p == 0);
    cpu.step().unwrap();
    assert!(cpu.y == exp_y);
    assert!(cpu.p == exp_p);
}

#[test]
fn test_ldy_a0() { // LDY #$nn
    let mem1 = &[LDY_A0, 0];
    let mem2 = &[LDY_A0, 0x55];
    let mem3 = &[LDY_A0, 0x80];
    let mem4 = &[LDY_A0, 0xAA];

    ldy_a0_case(mem1, 0, Z_ZERO);
    ldy_a0_case(mem2, 0x55, 0);
    ldy_a0_case(mem3, 0x80, N_NEGATIVE);
    ldy_a0_case(mem4, 0xAA, N_NEGATIVE);
}

fn ldy_ac_case(mem: &[u8], exp_y: u8, exp_p: u8) {
    let mut cpu = Cpu::new();
    cpu.patch_memory(0, mem);
    assert!(cpu.y == 0);
    assert!(cpu.p == 0);
    cpu.step().unwrap();
    assert!(cpu.y == exp_y);
    assert!(cpu.p == exp_p);
}

#[test]
fn test_ldy_ac() { // LDY $nnnn
    let mut mem: [u8; MEM_SZ] = [0; MEM_SZ];
    mem[0] = LDY_AC;
    mem[1] = 0x20;
    mem[2] = 0x40;

    mem[0x4020] = 0;
    ldy_ac_case(&mem, 0x00, Z_ZERO);

    mem[0x4020] = 0x80;
    ldy_ac_case(&mem, 0x80, N_NEGATIVE);

    mem[0x4020] = 0x55;
    ldy_ac_case(&mem, 0x55, 0);

    mem[0x4020] = 0xAA;
    ldy_ac_case(&mem, 0xAA, N_NEGATIVE);
}

fn ldy_bc_case(mem: &[u8], x: u8, exp_y: u8, exp_p: u8) {
    let mut cpu = Cpu::new();
    cpu.patch_memory(0, mem);
    cpu.x = x;
    assert!(cpu.y == 0);
    assert!(cpu.p == 0);
    cpu.step().unwrap();
    assert!(cpu.y == exp_y);
    assert!(cpu.p == exp_p);
}

#[test]
fn test_ldy_bc() { // LDY $nnnn,X
    let mut mem: [u8; MEM_SZ] = [0; MEM_SZ];
    mem[0] = LDY_BC;
    mem[1] = 0x60;
    mem[2] = 0x70;

    mem[0x7075] = 0;
    ldy_bc_case(&mem, 0x15, 0x00, Z_ZERO);

    mem[0x7075] = 0x55;
    ldy_bc_case(&mem, 0x15, 0x55, 0);

    mem[0x7075] = 0x80;
    ldy_bc_case(&mem, 0x15, 0x80, N_NEGATIVE);

    mem[0x7075] = 0xAA;
    ldy_bc_case(&mem, 0x15, 0xAA, N_NEGATIVE);
}

fn ldy_a4_case(mem: &[u8], exp_y: u8, exp_p: u8) {
    let mut cpu = Cpu::new();
    cpu.patch_memory(0, mem);
    assert!(cpu.y == 0);
    assert!(cpu.p == 0);
    cpu.step().unwrap();
    assert!(cpu.y == exp_y);
    assert!(cpu.p == exp_p);
}

#[test]
fn test_ldy_a4() { // LDY $nn
    let mut mem: [u8; MEM_SZ] = [0; MEM_SZ];
    mem[0] = LDY_A4;
    mem[1] = 0x60;

    mem[0x0060] = 0;
    ldy_a4_case(&mem, 0x00, Z_ZERO);

    mem[0x0060] = 0x55;
    ldy_a4_case(&mem, 0x55, 0);

    mem[0x0060] = 0x80;
    ldy_a4_case(&mem, 0x80, N_NEGATIVE);

    mem[0x0060] = 0xAA;
    ldy_a4_case(&mem, 0xAA, N_NEGATIVE);
}

fn ldy_b4_case(mem: &[u8], x: u8, exp_y: u8, exp_p: u8) {
    let mut cpu = Cpu::new();
    cpu.patch_memory(0, mem);
    cpu.x = x;
    assert!(cpu.y == 0);
    assert!(cpu.p == 0);
    cpu.step().unwrap();
    assert!(cpu.y == exp_y);
    assert!(cpu.p == exp_p);
}

#[test]
fn test_ldy_b4() { // LDY $nn,X
    let mut mem: [u8; MEM_SZ] = [0; MEM_SZ];
    mem[0] = LDY_B4;
    mem[1] = 0x60;

    mem[0x0075] = 0;
    ldy_b4_case(&mem, 0x15, 0x00, Z_ZERO);

    mem[0x0075] = 0x55;
    ldy_b4_case(&mem, 0x15, 0x55, 0);

    mem[0x0075] = 0x80;
    ldy_b4_case(&mem, 0x15, 0x80, N_NEGATIVE);

    mem[0x0075] = 0xAA;
    ldy_b4_case(&mem, 0x15, 0xAA, N_NEGATIVE);
}

fn sta_8d_case(mem: &[u8], addr: usize, a: u8) {
    let mut cpu = Cpu::new();
    cpu.patch_memory(0, mem);
    cpu.a = a;
    cpu.step().unwrap();
    assert!(cpu.memory[addr] == a);
}

#[test]
fn test_sta_8d() { // STA $nnnn
    let mut mem: [u8; MEM_SZ] = [0; MEM_SZ];
    mem[0] = STA_8D;
    mem[1] = 0x60;
    mem[2] = 0x80;

    sta_8d_case(&mem, 0x8060, 0x55);
    sta_8d_case(&mem, 0x8060, 0x00);
    sta_8d_case(&mem, 0x8060, 0x80);
    sta_8d_case(&mem, 0x8060, 0xAA);
}

fn sta_9d_case(mem: &[u8], addr: usize, a: u8, x: u8) {
    let mut cpu = Cpu::new();
    cpu.patch_memory(0, mem);
    cpu.a = a;
    cpu.x = x;
    cpu.step().unwrap();
    assert!(cpu.memory[addr] == a);
}

#[test]
fn test_sta_9d() { // STA $nnnn,X
    let mut mem: [u8; MEM_SZ] = [0; MEM_SZ];
    mem[0] = STA_9D;
    mem[1] = 0x60;
    mem[2] = 0x80;

    sta_9d_case(&mem, 0x8082, 0x55, 0x22);
    sta_9d_case(&mem, 0x8082, 0x00, 0x22);
    sta_9d_case(&mem, 0x8082, 0x80, 0x22);
    sta_9d_case(&mem, 0x8082, 0xAA, 0x22);
}

fn sta_99_case(mem: &[u8], addr: usize, a: u8, y: u8) {
    let mut cpu = Cpu::new();
    cpu.patch_memory(0, mem);
    cpu.a = a;
    cpu.y = y;
    cpu.step().unwrap();
    assert!(cpu.memory[addr] == a);
}

#[test]
fn test_sta_99() { // STA $nnnn,Y
    let mut mem: [u8; MEM_SZ] = [0; MEM_SZ];
    mem[0] = STA_99;
    mem[1] = 0x60;
    mem[2] = 0x80;

    sta_99_case(&mem, 0x8082, 0x55, 0x22);
    sta_99_case(&mem, 0x8082, 0x00, 0x22);
    sta_99_case(&mem, 0x8082, 0x80, 0x22);
    sta_99_case(&mem, 0x8082, 0xAA, 0x22);
}

fn sta_85_case(mem: &[u8], addr: usize, a: u8) {
    let mut cpu = Cpu::new();
    cpu.patch_memory(0, mem);
    cpu.a = a;
    cpu.step().unwrap();
    assert!(cpu.memory[addr] == a);
}

#[test]
fn test_sta_85() { // STA $nn
    let mut mem: [u8; MEM_SZ] = [0; MEM_SZ];
    mem[0] = STA_85;
    mem[1] = 0x80;

    sta_85_case(&mem, 0x80, 0x55);
    sta_85_case(&mem, 0x80, 0x00);
    sta_85_case(&mem, 0x80, 0x80);
    sta_85_case(&mem, 0x80, 0xAA);
}

fn sta_95_case(mem: &[u8], addr: usize, a: u8, x: u8) {
    let mut cpu = Cpu::new();
    cpu.patch_memory(0, mem);
    cpu.a = a;
    cpu.x = x;
    cpu.step().unwrap();
    assert!(cpu.memory[addr] == a);
}

#[test]
fn test_sta_95() { // STA $nn,X
    let mut mem: [u8; MEM_SZ] = [0; MEM_SZ];
    mem[0] = STA_95;
    mem[1] = 0x80;

    sta_95_case(&mem, 0xA2, 0x55, 0x22);
    sta_95_case(&mem, 0xA2, 0x00, 0x22);
    sta_95_case(&mem, 0xA2, 0x80, 0x22);
    sta_95_case(&mem, 0xA2, 0xAA, 0x22);
}

fn sta_81_case(mem: &[u8], addr: usize, a: u8, x: u8) {
    let mut cpu = Cpu::new();
    cpu.patch_memory(0, mem);
    cpu.a = a;
    cpu.x = x;
    cpu.step().unwrap();
    assert!(cpu.memory[addr] == a);
}

#[test]
fn test_sta_81() { // STA ($nn,X)
    let mut mem: [u8; MEM_SZ] = [0; MEM_SZ];
    mem[0] = STA_81;
    mem[1] = 0x80;
    mem[0x98] = 0x22;
    mem[0x99] = 0x40;

    sta_81_case(&mem, 0x4022, 0x55, 0x18);
    sta_81_case(&mem, 0x4022, 0x00, 0x18);
    sta_81_case(&mem, 0x4022, 0x80, 0x18);
    sta_81_case(&mem, 0x4022, 0xAA, 0x18);
}

fn sta_91_case(mem: &[u8], addr: usize, a: u8, y: u8) {
    let mut cpu = Cpu::new();
    cpu.patch_memory(0, mem);
    cpu.a = a;
    cpu.y = y;
    cpu.step().unwrap();
    assert!(cpu.memory[addr] == a);
}

#[test]
fn test_sta_91() { // STA ($nn),Y
    let mut mem: [u8; MEM_SZ] = [0; MEM_SZ];
    mem[0] = STA_91;
    mem[1] = 0x80;
    mem[0x80] = 0x22; // $4022 + $0018 = 403A
    mem[0x81] = 0x40;

    sta_91_case(&mem, 0x403A, 0x55, 0x18);
    sta_91_case(&mem, 0x403A, 0x00, 0x18);
    sta_91_case(&mem, 0x403A, 0x80, 0x18);
    sta_91_case(&mem, 0x403A, 0xAA, 0x18);
}

fn stx_8e_case(mem: &[u8], addr: usize, x: u8) {
    let mut cpu = Cpu::new();
    cpu.patch_memory(0, mem);
    cpu.x = x;
    cpu.step().unwrap();
    assert!(cpu.memory[addr] == x);
}

#[test]
fn test_stx_8e() { // STX $nnnn
    let mut mem: [u8; MEM_SZ] = [0; MEM_SZ];
    mem[0] = STX_8E;
    mem[1] = 0x60;
    mem[2] = 0x80;

    stx_8e_case(&mem, 0x8060, 0x55);
    stx_8e_case(&mem, 0x8060, 0x00);
    stx_8e_case(&mem, 0x8060, 0x80);
    stx_8e_case(&mem, 0x8060, 0xAA);
}

fn stx_86_case(mem: &[u8], addr: usize, x: u8) {
    let mut cpu = Cpu::new();
    cpu.patch_memory(0, mem);
    cpu.x = x;
    cpu.step().unwrap();
    assert!(cpu.memory[addr] == x);
}

#[test]
fn test_stx_86() { // STX $nn
    let mut mem: [u8; MEM_SZ] = [0; MEM_SZ];
    mem[0] = STX_86;
    mem[1] = 0xC0;

    stx_86_case(&mem, 0x00C0, 0x55);
    stx_86_case(&mem, 0x00C0, 0x00);
    stx_86_case(&mem, 0x00C0, 0x80);
    stx_86_case(&mem, 0x00C0, 0xAA);
}

fn stx_96_case(mem: &[u8], addr: usize, x: u8, y: u8) {
    let mut cpu = Cpu::new();
    cpu.patch_memory(0, mem);
    cpu.x = x;
    cpu.y = y;
    cpu.step().unwrap();
    assert!(cpu.memory[addr] == x);
}

#[test]
fn test_stx_96() { // STX $nn,Y
    let mut mem: [u8; MEM_SZ] = [0; MEM_SZ];
    mem[0] = STX_96;
    mem[1] = 0xC0;

    stx_96_case(&mem, 0x00E2, 0x55, 0x22);
    stx_96_case(&mem, 0x00D0, 0x00, 0x10);
    stx_96_case(&mem, 0x00D5, 0x80, 0x15);
    stx_96_case(&mem, 0x0020, 0xAA, 0x60); // no crossing of zero-page boundaries
}

fn sty_8c_case(mem: &[u8], addr: usize, y: u8) {
    let mut cpu = Cpu::new();
    cpu.patch_memory(0, mem);
    cpu.y = y;
    cpu.step().unwrap();
    assert!(cpu.memory[addr] == y);
}

#[test]
fn test_sty_8c() { // STY $nnnn
    let mut mem: [u8; MEM_SZ] = [0; MEM_SZ];
    mem[0] = STY_8C;
    mem[1] = 0x60;
    mem[2] = 0x80;

    sty_8c_case(&mem, 0x8060, 0x55);
    sty_8c_case(&mem, 0x8060, 0x00);
    sty_8c_case(&mem, 0x8060, 0x80);
    sty_8c_case(&mem, 0x8060, 0xAA);
}

fn sty_84_case(mem: &[u8], addr: usize, y: u8) {
    let mut cpu = Cpu::new();
    cpu.patch_memory(0, mem);
    cpu.y = y;
    cpu.step().unwrap();
    assert!(cpu.memory[addr] == y);
}

#[test]
fn test_sty_84() { // STY $nn
    let mut mem: [u8; MEM_SZ] = [0; MEM_SZ];
    mem[0] = STY_84;
    mem[1] = 0xC0;

    sty_84_case(&mem, 0x00C0, 0x55);
    sty_84_case(&mem, 0x00C0, 0x00);
    sty_84_case(&mem, 0x00C0, 0x80);
    sty_84_case(&mem, 0x00C0, 0xAA);
}

fn sty_94_case(mem: &[u8], addr: usize, y: u8, x: u8) {
    let mut cpu = Cpu::new();
    cpu.patch_memory(0, mem);
    cpu.x = x;
    cpu.y = y;
    cpu.step().unwrap();
    assert!(cpu.memory[addr] == y);
}

#[test]
fn test_sty_94() { // STY $nn,X
    let mut mem: [u8; MEM_SZ] = [0; MEM_SZ];
    mem[0] = STY_94;
    mem[1] = 0xC0;

    sty_94_case(&mem, 0x00E2, 0x55, 0x22);
    sty_94_case(&mem, 0x00D0, 0x00, 0x10);
    sty_94_case(&mem, 0x00D5, 0x80, 0x15);
    sty_94_case(&mem, 0x0020, 0xAA, 0x60); // no crossing of zero-page boundaries
}
