use gba2k::irq::ie_reg;
use gba2k::irq::if_reg;
use gba2k::irq::ime_reg;
use gba2k::keys::get_keys;
use gba2k::keys::keycnt_reg;
use gba2k::keys::keyinput_reg;
use gba2k::keys::KeyControl;
use gba2k::keys::KeyInput;
use gba2k::keys::KeysLowActive;
use gba2k::keys::KEYINPUT;
use gba2k::mmio::Mmio;
use gba2k::video::backdrop_color_reg;
use gba2k::video::bg_palbank;
use gba2k::video::bg_palette;
use gba2k::video::dispcnt_reg;
use gba2k::video::dispstat_reg;
use gba2k::video::obj_palbank;
use gba2k::video::obj_palette;
use gba2k::video::vcount_reg;
use gba2k::video::Color;
use gba2k::video::DisplayControl;
use gba2k::video::DisplayMode;
use gba2k::video::DisplayStatus;
use gba2k::video::Mode3;
use gba2k::video::Mode3Scanlines;

#[test]
fn register_handles_cover_the_documented_offsets() {
    assert_eq!(ie_reg().address(), 0x0400_0200);
    assert_eq!(if_reg().address(), 0x0400_0202);
    assert_eq!(ime_reg().address(), 0x0400_0208);
    assert_eq!(keyinput_reg().address(), 0x0400_0130);
    assert_eq!(keycnt_reg().address(), 0x0400_0132);
    assert_eq!(dispcnt_reg().address(), 0x0400_0000);
    assert_eq!(dispstat_reg().address(), 0x0400_0004);
    assert_eq!(vcount_reg().address(), 0x0400_0006);
    assert_eq!(backdrop_color_reg().address(), 0x0500_0000);
}

#[test]
fn a_written_register_reads_back_the_stored_value() {
    let mut mmio = Mmio::new();
    dispcnt_reg().write(&mut mmio, 0x0403);
    assert_eq!(dispcnt_reg().read(&mut mmio), 0x0403);
    // A neighbouring register is untouched.
    assert_eq!(dispstat_reg().read(&mut mmio), 0);
}

#[test]
fn registers_read_zero_at_reset() {
    let mut mmio = Mmio::new();
    assert_eq!(ie_reg().read(&mut mmio), 0);
    assert_eq!(vcount_reg().read(&mut mmio), 0);
}

#[test]
fn get_keys_reads_the_key_state_register() {
    let mut mmio = Mmio::new();
    // The hardware reports every button released.
    mmio.hw_set(KEYINPUT, 0x03FF);
    let keys = get_keys(&mut mmio);
    assert_eq!(keys.to_u16(), 0x03FF);
    assert!(!keys.a());
    assert!(!keys.start());
    // Now A goes down: its low-active bit drops.
    mmio.hw_set(KEYINPUT, 0x03FE);
    let keys = get_keys(&mut mmio);
    assert!(keys.a());
    assert!(!keys.b());
}

#[test]
fn key_input_compensates_for_low_active_storage() {
    let none_pressed = KeyInput::from_u16(0x03FF);
    assert!(!none_pressed.a() && !none_pressed.l() && !none_pressed.down());
    let all_pressed = KeyInput::from_u16(0);
    assert!(all_pressed.a() && all_pressed.l() && all_pressed.down());
    // Forcing A pressed clears bit 0.
    assert_eq!(none_pressed.with_a(true).to_u16(), 0x03FE);
    // Forcing A released sets it again.
    assert_eq!(none_pressed.with_a(true).with_a(false).to_u16(), 0x03FF);
}

#[test]
fn key_changes_mark_exactly_the_buttons_that_differ() {
    let before = KeyInput::from_u16(0x03FF);
    let after = before.with_a(true).with_up(true);
    let changes = after.changes_since(before);
    assert!(changes.a());
    assert!(changes.up());
    assert!(!changes.b() && !changes.down() && !changes.l() && !changes.r());
    assert_eq!(changes.to_u16(), (1 << 0) | (1 << 6));
}

#[test]
fn keys_low_active_round_trips_and_converts() {
    let raw = KeysLowActive::from_u16(0x03FE);
    assert_eq!(raw.to_u16(), 0x03FE);
    assert!(!raw.a_released());
    assert!(raw.b_released());
    let keys = raw.to_key_input();
    assert!(keys.a());
    assert!(!keys.b());
    assert_eq!(KeysLowActive::new().with_l_released(true).to_u16(), 1 << 9);
}

#[test]
fn key_control_places_its_fields() {
    assert_eq!(KeyControl::new().with_a(true).to_u16(), 1);
    assert_eq!(KeyControl::new().with_l(true).to_u16(), 1 << 9);
    assert_eq!(KeyControl::new().with_irq_enable(true).to_u16(), 0x4000);
    assert_eq!(KeyControl::new().with_all_required(true).to_u16(), 0x8000);
    let c = KeyControl::from_u16(0xC001);
    assert!(c.a() && c.irq_enable() && c.all_required());
    assert!(!c.b());
}

#[test]
fn color_channels_pack_into_their_fields() {
    assert_eq!(Color::new().with_red(31).to_u16(), 0x001F);
    assert_eq!(Color::new().with_green(31).to_u16(), 0x03E0);
    assert_eq!(Color::new().with_blue(31).to_u16(), 0x7C00);
    let c = Color::new().with_red(31).with_green(31).with_blue(31);
    assert_eq!(c.to_u16(), Color::white().to_u16());
    assert_eq!(c.red(), 31);
    assert_eq!(c.green(), 31);
    assert_eq!(c.blue(), 31);
    let mixed = Color::new().with_red(10).with_green(20).with_blue(5);
    assert_eq!(mixed.to_u16(), 10 | (20 << 5) | (5 << 10));
}

#[test]
fn color_named_values_and_round_trip() {
    assert_eq!(Color::black().to_u16(), 0);
    assert_eq!(Color::full_red().to_u16(), 0x001F);
    assert_eq!(Color::full_green().to_u16(), 0x03E0);
    assert_eq!(Color::full_blue().to_u16(), 0x7C00);
    assert_eq!(Color::from_u16(0x1234).to_u16(), 0x1234);
}

#[test]
fn display_control_places_its_fields() {
    assert_eq!(DisplayControl::new().with_display_mode(DisplayMode::Mode3).to_u16(), 3);
    assert_eq!(DisplayControl::new().with_frame_select(true).to_u16(), 1 << 4);
    assert_eq!(DisplayControl::new().with_forced_blank(true).to_u16(), 1 << 7);
    assert_eq!(DisplayControl::new().with_display_bg0(true).to_u16(), 1 << 8);
    assert_eq!(DisplayControl::new().with_display_obj(true).to_u16(), 1 << 12);
    assert_eq!(DisplayControl::new().with_display_obj_win(true).to_u16(), 1 << 15);
    let dc = DisplayControl::from_u16(0x0403);
    assert_eq!(dc.display_mode(), Some(DisplayMode::Mode3));
    assert!(dc.display_bg2());
}

#[test]
fn display_mode_rejects_the_two_reserved_patterns() {
    assert_eq!(DisplayMode::from_u16(5), Some(DisplayMode::Mode5));
    assert_eq!(DisplayMode::from_u16(6), None);
    assert_eq!(DisplayMode::from_u16(7), None);
    assert_eq!(DisplayControl::from_u16(6).display_mode(), None);
    for m in [
        DisplayMode::Mode0,
        DisplayMode::Mode1,
        DisplayMode::Mode2,
        DisplayMode::Mode3,
        DisplayMode::Mode4,
        DisplayMode::Mode5,
    ] {
        assert_eq!(DisplayMode::from_u16(m.to_u16()), Some(m));
    }
}

#[test]
fn display_status_places_its_fields() {
    assert_eq!(DisplayStatus::new().with_vblank_irq(true).to_u16(), 1 << 3);
    assert_eq!(DisplayStatus::new().with_hblank_irq(true).to_u16(), 1 << 4);
    assert_eq!(DisplayStatus::new().with_vcounter_irq(true).to_u16(), 1 << 5);
    assert_eq!(DisplayStatus::new().with_vcounter(0xAB).to_u16(), 0xAB00);
    let ds = DisplayStatus::from_u16(0xAB09);
    assert!(ds.is_vblank());
    assert!(ds.vblank_irq());
    assert!(!ds.is_hblank());
    assert_eq!(ds.vcounter(), 0xAB);
}

#[test]
fn palettes_cover_their_documented_addresses() {
    assert_eq!(bg_palette().base_address(), 0x0500_0000);
    assert_eq!(obj_palette().base_address(), 0x0500_0200);
    assert_eq!(bg_palette().len(), 256);
    assert_eq!(bg_palette().index(5).address(), 0x0500_000A);
    assert_eq!(bg_palbank(0).base_address(), 0x0500_0000);
    assert_eq!(bg_palbank(15).base_address(), 0x0500_01E0);
    assert_eq!(obj_palbank(0).base_address(), 0x0500_0200);
    assert_eq!(obj_palbank(15).base_address(), 0x0500_03E0);
    assert_eq!(bg_palbank(1).len(), 16);
    assert_eq!(bg_palbank(1).index(15).address(), 0x0500_003E);
}

#[test]
fn palette_entries_hold_written_colors() {
    let mut mmio = Mmio::new();
    let entry = bg_palbank(2).index(3);
    entry.write(&mut mmio, Color::full_green().to_u16());
    assert_eq!(entry.read(&mut mmio), 0x03E0);
    backdrop_color_reg().write(&mut mmio, Color::white().to_u16());
    assert_eq!(backdrop_color_reg().read(&mut mmio), 0x7FFF);
}

#[test]
fn mode3_pixels_lie_on_the_documented_bitmap() {
    let m = Mode3::new();
    assert_eq!(m.pixel_xy(0, 0).address(), 0x0600_0000);
    assert_eq!(m.pixel_xy(1, 0).address(), 0x0600_0002);
    assert_eq!(m.pixel_xy(0, 1).address(), 0x0600_01E0);
    assert_eq!(m.pixel_xy(239, 159).address(), 0x0601_2BFE);
}

#[test]
fn mode3_scanline_walker_visits_every_row_once() {
    let mut lines = Mode3::new().scanlines();
    assert_eq!(lines.current_row(), 0);
    assert_eq!(lines.remaining_rows(), 160);
    let first = lines.next().unwrap();
    assert_eq!(first.base_address(), 0x0600_0000);
    assert_eq!(lines.current_row(), 1);
    let second = lines.next().unwrap();
    assert_eq!(second.base_address(), 0x0600_01E0);
    let mut n: usize = 2;
    while lines.next().is_some() {
        n += 1;
    }
    assert_eq!(n, 160);
    assert!(lines.next().is_none());
    assert_eq!(lines.remaining_rows(), 0);
}

#[test]
fn mode3_scanline_walker_helpers() {
    let lines = Mode3Scanlines::new();
    assert_eq!(lines.size_hint(), (0, Some(160)));
    assert_eq!(lines.clone().count(), 160);
    assert_eq!(lines.clone().last().unwrap().base_address(), 0x0601_2A20);
    assert_eq!(lines.clone().max().unwrap().base_address(), 0x0601_2A20);
    assert_eq!(lines.clone().min().unwrap().base_address(), 0x0600_0000);

    let mut skipping = Mode3Scanlines::new();
    let tenth = skipping.nth(9).unwrap();
    assert_eq!(tenth.base_address(), 0x0600_0000 + 9 * 480);
    assert_eq!(skipping.current_row(), 10);
    assert!(skipping.nth(200).is_none());
    assert_eq!(skipping.remaining_rows(), 0);
}

#[test]
fn default_values_are_the_all_clear_values() {
    assert_eq!(KeyInput::default().to_u16(), 0);
    assert_eq!(KeyControl::default().to_u16(), 0);
    assert_eq!(KeysLowActive::default().to_u16(), 0);
    assert_eq!(Color::default().to_u16(), 0);
    assert_eq!(DisplayControl::default().to_u16(), 0);
    assert_eq!(DisplayStatus::default().to_u16(), 0);
    assert_eq!(DisplayMode::default(), DisplayMode::Mode0);
    assert_eq!(Mode3Scanlines::default().current_row(), 0);
}
