use dust_manip::snowballs::{
    is_pushed, pack_positions, pack_snowballs, push_counter, start_positions, window_positions,
    BoundingBox, REST_COUNTER,
};

#[test]
fn collider_sweeps_down_three_pixels_a_tick() {
    let sweep = BoundingBox::collider_sweep();
    assert_eq!(sweep.len(), 40);
    assert_eq!(sweep[0], BoundingBox::new(140, 370, 159, 380));
    assert_eq!(sweep[39], BoundingBox { left: 140, top: 487, right: 159, bottom: 497 });
    assert_eq!(BoundingBox::collider_start(), BoundingBox::new(140, 367, 159, 377));
    let mut bbox = BoundingBox::new(1, 2, 3, 4);
    bbox.move_down(3);
    assert_eq!(bbox, BoundingBox::new(1, 5, 3, 7));
}

#[test]
fn snowballs_start_in_four_areas() {
    let positions = start_positions();
    assert_eq!(positions.len(), 120);
    assert_eq!(&positions[..5], &[(1422, 4410), (1462, 4410), (1502, 4410), (1542, 4410), (1580, 4410)]);
    assert_eq!(positions[5], (1422, 4450));
    assert_eq!(positions[24], (1580, 4570));
    assert_eq!(&positions[25..30], &[(1380, 4410), (1380, 4450), (1380, 4490), (1380, 4530), (1380, 4570)]);
    assert_eq!(positions[30], (1422, 3810));
    assert_eq!(positions[60], (1422, 4210));
    assert_eq!(positions[90], (1422, 4010));
    assert_eq!(positions[119], (1380, 4170));
    // the tenths give back the positions as they are written
    assert_eq!(positions[0].0 as f32 / 10.0, 142.2f32);
    assert_eq!(positions[4].0 as f32 / 10.0, 158.0f32);
}

#[test]
fn push_counter_scales_the_draw_by_four() {
    assert_eq!(push_counter(0), 2);
    assert_eq!(push_counter(0x3fff_ffff), 2);
    assert_eq!(push_counter(0x4000_0000), 3);
    assert_eq!(push_counter(0x8000_0000), 4);
    assert_eq!(push_counter(0xc000_0000), 5);
    assert_eq!(push_counter(u32::MAX), 5);
    for &draw in &[0u32, 1, 0x3fff_ffff, 0x4000_0000, 0x7fff_ffff, 0xbfff_ffff, 0xdead_beef, u32::MAX] {
        let scaled = (draw as f64) * 2.3283064365386963e-10 * 4.0;
        assert_eq!(push_counter(draw), f64::floor(scaled) as i32 + 2);
    }
}

#[test]
fn only_positions_in_the_window_are_kept() {
    let kept = window_positions(&vec![
        (150, 360),
        (149, 360),
        (150, 359),
        (399, 609),
        (400, 609),
        (399, 610),
        (-5, 1000),
        (275, 400),
    ]);
    assert_eq!(kept, vec![(0, 0), (249, 249), (125, 40)]);
}

#[test]
fn packing_sorts_by_falling_x_and_pads() {
    let mut out = vec![7u8];
    pack_positions(&vec![(160, 370), (300, 380), (10, 10), (200, 600), (250, 361)], &mut out);
    assert_eq!(out.len(), 129);
    assert_eq!(&out[..9], &[7, 150, 20, 100, 1, 50, 240, 10, 10]);
    assert!(out[9..].iter().all(|&b| b == 0));
}

#[test]
fn packing_keeps_equal_x_together() {
    let mut out = Vec::new();
    pack_positions(&vec![(200, 400), (200, 500), (201, 450)], &mut out);
    assert_eq!(&out[..2], &[51, 90]);
    let mut rest = vec![(out[2], out[3]), (out[4], out[5])];
    rest.sort();
    assert_eq!(rest, vec![(50, 40), (50, 140)]);
    assert!(out[6..].iter().all(|&b| b == 0));
    assert_eq!(out.len(), 128);
}

#[test]
fn packing_cuts_at_sixty_four() {
    let positions: Vec<(i32, i32)> = (0..100).map(|i| (150 + i, 360 + 2 * i)).collect();
    let mut out = Vec::new();
    pack_positions(&positions, &mut out);
    assert_eq!(out.len(), 128);
    for k in 0..64 {
        assert_eq!((out[2 * k], out[2 * k + 1]), ((99 - k) as u8, (2 * (99 - k)) as u8));
    }
    let mut empty = Vec::new();
    pack_positions(&vec![], &mut empty);
    assert_eq!(empty, vec![0; 128]);
}

#[test]
fn snowballs_are_packed_in_their_order() {
    let mut out = Vec::new();
    pack_snowballs(&vec![(1, 2), (3, 4)], &mut out);
    assert_eq!(&out[..6], &[1, 2, 3, 4, 0, 0]);
    assert_eq!(out.len(), 128);
}

#[test]
fn a_snowball_is_pushed_while_its_counter_is_above_zero() {
    assert!(!is_pushed(REST_COUNTER));
    assert!(!is_pushed(0));
    assert!(!is_pushed(-1));
    assert!(is_pushed(1));
    assert!(is_pushed(push_counter(0)));
    assert!(is_pushed(push_counter(u32::MAX)));
}
