use psx_cdrom::gpu::{command, gp0_header, parameter, Gpu};

#[test]
fn new_gpu_is_blank() {
    let mut gpu = Gpu::new();
    assert_eq!(gpu.get_vram().len(), 524288);
    assert!(gpu.get_vram().iter().all(|&p| p == 0));
    assert_eq!(gpu.read_status_register(), 0);
    assert_eq!(gpu.read_word_gp0(), 0);
}

#[test]
fn flat_single_pixel_rectangle_draws_one_pixel() {
    let mut gpu = Gpu::new();
    gpu.send_gp0_command(0x6800_00FF);
    assert!(gpu.get_vram().iter().all(|&p| p == 0));
    gpu.send_gp0_command(0x0001_0002);
    assert_eq!(gpu.get_vram()[1026], 0x00FF);
    assert_eq!(gpu.get_vram().iter().filter(|&&p| p != 0).count(), 1);
}

#[test]
fn textured_rectangle_is_not_drawn() {
    let mut gpu = Gpu::new();
    gpu.send_gp0_command(0x6C00_00FF);
    gpu.send_gp0_command(0x0001_0002);
    assert!(gpu.get_vram().iter().all(|&p| p == 0));
}

#[test]
fn variable_size_rectangle_fills_a_box() {
    let mut gpu = Gpu::new();
    gpu.send_gp0_command(0x6000_1234);
    gpu.send_gp0_command(0x0002_0001);
    gpu.send_gp0_command(0x0003_0004);
    let vram = gpu.get_vram();
    for y in 0..8usize {
        for x in 0..8usize {
            let inside = (1..=4).contains(&x) && (2..=3).contains(&y);
            assert_eq!(vram[1024 * y + x], if inside { 0x1234 } else { 0 });
        }
    }
    assert_eq!(vram.iter().filter(|&&p| p != 0).count(), 8);
}

#[test]
fn environment_commands_and_reset() {
    let mut gpu = Gpu::new();
    gpu.send_gp0_command(0x0000_0000);
    gpu.send_gp0_command(0xE100_0013);
    gpu.send_gp0_command(0xE300_0000);
    gpu.send_gp0_command(0xE400_0000 | (239 << 10) | 319);
    gpu.send_gp0_command(0xE500_0000);
    gpu.send_gp0_command(0x6800_0007);
    gpu.send_gp0_command(0x0000_0000);
    assert_eq!(gpu.get_vram()[0], 7);
    assert!(gpu.send_gp1_command(0x0000_0000));
    assert_eq!(gpu.get_vram()[0], 0);
    assert!(gpu.send_gp1_command(0x0600_0000));
    assert!(!gpu.send_gp1_command(0x0800_0001));
}

#[test]
fn word_fields() {
    assert_eq!(gp0_header(0x6800_0000), 3);
    assert_eq!(gp0_header(0xE100_0000), 7);
    assert_eq!(command(0xE3AB_CDEF), 0xE3);
    assert_eq!(parameter(0xFFFF_FFFF), 0x7F_FFFF);
}

#[test]
fn gp0_accepts_matches_what_send_can_do() {
    let mut gpu = Gpu::new();
    assert!(gpu.gp0_accepts(0x0000_0000));
    assert!(!gpu.gp0_accepts(0x4000_0000));
    assert!(!gpu.gp0_accepts(0xE200_0000));
    assert!(gpu.gp0_accepts(0xE100_0000));
    // A flat triangle is accepted until its last vertex arrives.
    gpu.send_gp0_command(0x2000_0000);
    gpu.send_gp0_command(0x0000_0000);
    assert!(!gpu.gp0_accepts(0x0000_0000));
    let mut gpu = Gpu::new();
    // A textured triangle restarts the buffer and is always accepted.
    gpu.send_gp0_command(0x3000_0000);
    gpu.send_gp0_command(0x0000_0000);
    gpu.send_gp0_command(0x0000_0000);
    gpu.send_gp0_command(0x0000_0000);
    assert!(gpu.gp0_accepts(0x0000_0000));
    // A pixel below the last row of video memory is refused.
    let mut gpu = Gpu::new();
    gpu.send_gp0_command(0x6800_0001);
    assert!(!gpu.gp0_accepts(0x0200_0000));
    assert!(gpu.gp0_accepts(0x01FF_03FF));
    // A box reaching past video memory is refused; an empty one is not.
    let mut gpu = Gpu::new();
    gpu.send_gp0_command(0x6000_0001);
    gpu.send_gp0_command(0x0000_0000);
    assert!(!gpu.gp0_accepts(0x0200_0000));
    assert!(gpu.gp0_accepts(0x01FF_03FF));
}
