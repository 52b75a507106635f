use rusty_raven::ppu_registers::{PpuControl, PpuMask, PpuStatus, SpriteSize};

#[test]
fn test_ppu_control() {
    let ppu_control = PpuControl::from(0x82);
    assert_eq!(ppu_control.base_name_table_address(), 0x2800);
    assert_eq!(ppu_control.sprite_size(), SpriteSize::EightByEight);
    assert_eq!(ppu_control.vram_address_increment(), 1);
    assert!(ppu_control.is_nmi());
}

#[test]
fn ppu_control_fields() {
    let ppu_control = PpuControl::from(0x3F);
    assert_eq!(ppu_control.base_name_table_address(), 0x2C00);
    assert_eq!(ppu_control.sprite_size(), SpriteSize::EightBySixteen);
    assert_eq!(ppu_control.vram_address_increment(), 32);
    // Bits 4 and 3 select the pattern tables at $1000.
    assert_eq!(ppu_control.bg_pattern_table_address(), 0x1000);
    assert_eq!(ppu_control.sprite_pattern_table_address(), 0x1000);
    assert_eq!(ppu_control.bg_pattern_table_half(), 1);
    assert_eq!(ppu_control.sprite_pattern_table_half(), 1);
    assert_eq!(PpuControl::from(0x00).bg_pattern_table_address(), 0);
    assert_eq!(PpuControl::from(0x10).sprite_pattern_table_address(), 0);
    assert_eq!(PpuControl::from(0x08).sprite_pattern_table_address(), 0x1000);
    assert!(!ppu_control.is_nmi());
}

#[test]
fn ppu_mask_and_status() {
    let mask = PpuMask::from(0x18);
    assert!(mask.bg_enabled());
    assert!(mask.sprites_enabled());
    assert!(!PpuMask::from(0x00).bg_enabled());
    let status = PpuStatus::from(0x60);
    assert!(!status.is_vblank());
    assert!(status.set_vblank().is_vblank());
    assert!(!status.set_vblank().clear_vblank().is_vblank());
    assert!(status.sprite_zero_hit());
    assert!(status.sprite_overflow());
}
