use appctx::context::ApplicationContext;
use appctx::geometry::far_edge;
use appctx::index::ActiveRegionHandler;
use appctx::regions::ActiveRegions;

fn handler(handler: u64, element: u64) -> ActiveRegionHandler {
    ActiveRegionHandler { handler, element }
}

#[test]
fn empty_index_finds_nothing() {
    let index = ActiveRegions::new(1404, 1872);
    assert_eq!(index.issued_count(), 0);
    assert!(index.find(0, 0).is_none());
    assert!(index.find(900, 700).is_none());
    assert!(index.find(65535, 65535).is_none());
}

#[test]
fn touch_strictly_inside_finds_the_region() {
    let mut index = ActiveRegions::new(1404, 1872);
    let id = index.insert(100, 200, 50, 80, handler(7, 9));
    assert_eq!(index.issued_count(), 1);
    for (y, x) in [(101u16, 201u16), (125, 240), (149, 279)] {
        let found = index.find(y, x);
        assert_eq!(found, Some((handler(7, 9), id)));
    }
}

#[test]
fn touch_away_from_all_regions_finds_nothing() {
    let mut index = ActiveRegions::new(1404, 1872);
    index.insert(100, 200, 50, 80, handler(7, 9));
    index.insert(400, 600, 10, 10, handler(8, 10));
    assert!(index.find(300, 300).is_none());
    assert!(index.find(97, 240).is_none());
    assert!(index.find(153, 240).is_none());
    assert!(index.find(125, 197).is_none());
    assert!(index.find(125, 283).is_none());
}

#[test]
fn touch_within_two_units_of_an_edge_finds_the_region() {
    let mut index = ActiveRegions::new(1404, 1872);
    let id = index.insert(100, 200, 50, 80, handler(7, 9));
    // The rectangle spans x in [200, 280] and y in [100, 150].
    assert_eq!(index.find(98, 240), Some((handler(7, 9), id)));
    assert_eq!(index.find(152, 240), Some((handler(7, 9), id)));
    assert_eq!(index.find(125, 198), Some((handler(7, 9), id)));
    assert_eq!(index.find(125, 282), Some((handler(7, 9), id)));
    assert_eq!(index.find(98, 198), Some((handler(7, 9), id)));
    assert_eq!(index.find(152, 282), Some((handler(7, 9), id)));
}

#[test]
fn touch_on_an_edge_finds_the_region() {
    let mut index = ActiveRegions::new(1404, 1872);
    let id = index.insert(100, 200, 50, 80, handler(1, 2));
    assert_eq!(index.find(100, 200), Some((handler(1, 2), id)));
    assert_eq!(index.find(150, 280), Some((handler(1, 2), id)));
}

#[test]
fn overlapping_regions_give_the_older_one() {
    let mut index = ActiveRegions::new(1404, 1872);
    let first = index.insert(100, 100, 100, 100, handler(1, 1));
    let second = index.insert(150, 150, 100, 100, handler(2, 2));
    assert_ne!(first, second);
    assert_eq!(index.find(175, 175), Some((handler(1, 1), first)));
    assert_eq!(index.find(240, 240), Some((handler(2, 2), second)));
    assert_eq!(index.find(110, 110), Some((handler(1, 1), first)));
}

#[test]
fn removing_by_handle_takes_the_region_out() {
    let mut index = ActiveRegions::new(1404, 1872);
    let first = index.insert(100, 100, 100, 100, handler(1, 1));
    let second = index.insert(150, 150, 100, 100, handler(2, 2));
    assert_eq!(index.remove(first), Some(handler(1, 1)));
    assert_eq!(index.remove(first), None);
    assert_eq!(index.find(175, 175), Some((handler(2, 2), second)));
    assert!(index.find(110, 110).is_none());
    assert_eq!(index.issued_count(), 2);
}

#[test]
fn removing_at_a_point_takes_the_found_region_out() {
    let mut index = ActiveRegions::new(1404, 1872);
    let _first = index.insert(100, 100, 100, 100, handler(1, 1));
    let second = index.insert(150, 150, 100, 100, handler(2, 2));
    assert!(index.remove_at_point(175, 175));
    assert_eq!(index.find(175, 175), Some((handler(2, 2), second)));
    assert!(index.remove_at_point(175, 175));
    assert!(index.find(175, 175).is_none());
    assert!(!index.remove_at_point(175, 175));
}

#[test]
fn far_edge_adds_and_cuts_off() {
    assert_eq!(far_edge(0, 0), 0);
    assert_eq!(far_edge(200, 80), 280);
    assert_eq!(far_edge(65000, 535), 65535);
    assert_eq!(far_edge(65000, 536), 65535);
    assert_eq!(far_edge(65535, 65535), 65535);
    assert_eq!(far_edge(1, 65534), 65535);
}

#[test]
fn region_past_the_largest_coordinate_is_still_found() {
    let mut index = ActiveRegions::new(65535, 65535);
    let id = index.insert(65000, 65000, 60000, 60000, handler(3, 4));
    assert_eq!(index.find(65535, 65535), Some((handler(3, 4), id)));
    assert_eq!(index.find(65001, 65300), Some((handler(3, 4), id)));
    assert!(index.find(64997, 65300).is_none());
}

#[test]
fn touch_near_the_origin_is_looked_up() {
    let mut index = ActiveRegions::new(1404, 1872);
    let id = index.insert(0, 0, 10, 10, handler(5, 6));
    assert_eq!(index.find(0, 0), Some((handler(5, 6), id)));
    assert_eq!(index.find(1, 1), Some((handler(5, 6), id)));
    assert_eq!(index.find(12, 12), Some((handler(5, 6), id)));
    assert!(index.find(13, 13).is_none());
}

#[test]
fn index_agrees_with_a_scan_of_all_regions() {
    let mut index = ActiveRegions::new(1404, 1872);
    let mut rects: Vec<(u16, u16, u16, u16, u64)> = Vec::new();
    let mut seed: u32 = 12345;
    let mut next = |bound: u32| -> u16 {
        seed = seed.wrapping_mul(1103515245).wrapping_add(12345);
        ((seed >> 8) % bound) as u16
    };
    for i in 0..200u64 {
        let y = next(1872);
        let x = next(1404);
        let height = next(300);
        let width = next(300);
        index.insert(y, x, height, width, handler(i, i + 1000));
        rects.push((y, x, height, width, i));
    }
    assert_eq!(index.issued_count(), 200);
    for _ in 0..2000 {
        let ty = next(1872) as i64;
        let tx = next(1404) as i64;
        let expected = rects.iter().find(|r| {
            let (y, x, h, w) = (r.0 as i64, r.1 as i64, r.2 as i64, r.3 as i64);
            x <= tx + 2 && tx - 2 <= x + w && y <= ty + 2 && ty - 2 <= y + h
        });
        let found = index.find(ty as u16, tx as u16);
        match expected {
            Some(r) => assert_eq!(found.map(|hit| hit.0), Some(handler(r.4, r.4 + 1000))),
            None => assert!(found.is_none()),
        }
    }
}

#[test]
fn index_agrees_with_a_scan_after_removals() {
    let mut index = ActiveRegions::new(800, 600);
    let mut live: Vec<(u16, u16, u16, u16, u64)> = Vec::new();
    let mut seed: u32 = 987;
    let mut next = |bound: u32| -> u16 {
        seed = seed.wrapping_mul(1103515245).wrapping_add(12345);
        ((seed >> 8) % bound) as u16
    };
    for i in 0..120u64 {
        let y = next(600);
        let x = next(800);
        let height = next(60);
        let width = next(60);
        index.insert(y, x, height, width, handler(i, i));
        live.push((y, x, height, width, i));
    }
    for _ in 0..400 {
        let ty = next(600) as i64;
        let tx = next(800) as i64;
        let at = live.iter().position(|r| {
            let (y, x, h, w) = (r.0 as i64, r.1 as i64, r.2 as i64, r.3 as i64);
            x <= tx + 2 && tx - 2 <= x + w && y <= ty + 2 && ty - 2 <= y + h
        });
        let removed = index.remove_at_point(ty as u16, tx as u16);
        assert_eq!(removed, at.is_some());
        if let Some(at) = at {
            live.remove(at);
        }
    }
    for r in &live {
        let found = index.find(r.0, r.1);
        assert!(found.is_some());
    }
}

#[test]
fn region_outside_the_screen_is_not_found_on_the_screen() {
    let mut index = ActiveRegions::new(100, 100);
    index.insert(500, 500, 10, 10, handler(1, 1));
    for y in [0u16, 50, 98] {
        for x in [0u16, 50, 98] {
            assert!(index.find(y, x).is_none());
        }
    }
}

#[test]
fn region_outside_the_screen_is_dropped_once_the_index_has_split() {
    let mut index = ActiveRegions::new(100, 100);
    for i in 0..17u16 {
        index.insert(5 * i, 5 * i, 2, 2, handler(i as u64, 0));
    }
    index.insert(500, 500, 10, 10, handler(99, 99));
    assert_eq!(index.issued_count(), 18);
    assert!(index.find(505, 505).is_none());
    assert_eq!(index.find(5, 5).map(|hit| hit.0), Some(handler(1, 0)));
}

#[test]
fn context_regions_follow_the_index() {
    let mut context = ApplicationContext::new(1872, 1404);
    assert_eq!(context.regions_created(), 0);
    context.create_active_region(100, 200, 50, 80, 7, 9);
    assert_eq!(context.regions_created(), 1);
    let found = context.find_active_region(120, 230);
    assert_eq!(found.map(|hit| hit.0), Some(handler(7, 9)));
    assert!(context.find_active_region(500, 500).is_none());
    assert!(context.remove_active_region_at_point(120, 230));
    assert!(!context.remove_active_region_at_point(120, 230));
    assert!(context.find_active_region(120, 230).is_none());
    assert_eq!(context.regions_created(), 1);
}

#[test]
fn context_reports_its_dimensions() {
    let context = ApplicationContext::new(1872, 1404);
    assert_eq!(context.get_dimensions(), (1872, 1404));
}

#[test]
fn region_across_the_edge_of_the_screen_is_found_on_the_screen() {
    let mut index = ActiveRegions::new(1404, 1872);
    for i in 0..20u16 {
        index.insert(10 * i, 10 * i, 3, 3, handler(100 + i as u64, 0));
    }
    let id = index.insert(1800, 1400, 500, 500, handler(1, 1));
    assert_eq!(index.find(1872, 1404), Some((handler(1, 1), id)));
    assert_eq!(index.find(1850, 1403), Some((handler(1, 1), id)));
    assert_eq!(index.find(1799, 1399), Some((handler(1, 1), id)));
}

/// Checks every answer of the index against the list of all regions: a
/// region that is found meets the square of the touch and no older region
/// meets that square on the screen, and where nothing is found no region
/// meets the square on the screen.
fn answers_are_allowed(screen_width: u16, screen_height: u16, reach: u32, extent: u32, seed: u32) {
    let mut index = ActiveRegions::new(screen_width as u32, screen_height as u32);
    let mut rects: Vec<(i64, i64, i64, i64)> = Vec::new();
    let mut state: u32 = seed;
    let mut next = |bound: u32| -> u16 {
        state = state.wrapping_mul(1103515245).wrapping_add(12345);
        ((state >> 8) % bound) as u16
    };
    for i in 0..150u64 {
        let y = next(reach);
        let x = next(reach);
        let height = next(extent);
        let width = next(extent);
        index.insert(y, x, height, width, handler(i, 0));
        rects.push((x as i64, y as i64, x as i64 + width as i64, y as i64 + height as i64));
    }
    let (bw, bh) = (screen_width as i64, screen_height as i64);
    for _ in 0..3000 {
        let ty = next(reach);
        let tx = next(reach);
        let (l, t, r, b) = (tx as i64 - 2, ty as i64 - 2, tx as i64 + 2, ty as i64 + 2);
        let meets = |a: &(i64, i64, i64, i64)| a.0 <= r && l <= a.2 && a.1 <= b && t <= a.3;
        let on_screen = |a: &(i64, i64, i64, i64)| meets(a) && a.0 <= bw && a.1 <= bh && l <= bw && t <= bh;
        match index.find(ty, tx) {
            Some((found, _)) => {
                let number = found.handler as usize;
                assert!(meets(&rects[number]));
                assert!(rects[..number].iter().all(|a| !on_screen(a)));
            }
            None => assert!(rects.iter().all(|a| !on_screen(a))),
        }
    }
}

#[test]
fn answers_are_allowed_on_a_small_screen() {
    answers_are_allowed(100, 100, 300, 120, 1);
    answers_are_allowed(1, 1, 40, 10, 2);
    answers_are_allowed(7, 300, 400, 50, 3);
}

#[test]
fn answers_are_allowed_on_a_tablet_screen() {
    answers_are_allowed(1404, 1872, 2200, 400, 4);
    answers_are_allowed(1404, 1872, 1404, 30, 5);
}

#[test]
fn answers_are_allowed_on_the_largest_screen() {
    answers_are_allowed(65535, 65535, 65536, 5000, 6);
    answers_are_allowed(65535, 65535, 65536, 65536, 7);
    answers_are_allowed(65535, 3, 65536, 300, 8);
}

#[test]
fn screen_beyond_the_largest_coordinate_is_covered_as_far_as_a_touch_reaches() {
    let mut index = ActiveRegions::new(4_000_000, 100_000);
    for i in 0..40u16 {
        index.insert(1000 * i, 1000 * i, 10, 10, handler(i as u64, 0));
    }
    let id = index.insert(65530, 65530, 5, 5, handler(77, 7));
    assert_eq!(index.find(65535, 65535), Some((handler(77, 7), id)));
    assert_eq!(index.find(39000, 39000).map(|hit| hit.0), Some(handler(39, 0)));
    assert!(index.find(39500, 39500).is_none());
}

#[test]
fn same_lookup_answers_the_same_again() {
    let mut context = ApplicationContext::new(1872, 1404);
    context.create_active_region(100, 100, 100, 100, 1, 1);
    context.create_active_region(150, 150, 100, 100, 2, 2);
    context.create_active_region(3000, 3000, 10, 10, 3, 3);
    for (y, x) in [(175u16, 175u16), (240, 240), (500, 500), (3005, 3005), (0, 0)] {
        let first = context.find_active_region(y, x);
        let second = context.find_active_region(y, x);
        assert_eq!(first, second);
    }
}

#[test]
fn removal_at_a_point_takes_what_the_lookup_found() {
    let mut context = ApplicationContext::new(1872, 1404);
    context.create_active_region(100, 100, 100, 100, 1, 1);
    context.create_active_region(150, 150, 100, 100, 2, 2);
    let found = context.find_active_region(175, 175);
    assert_eq!(found.map(|hit| hit.0), Some(handler(1, 1)));
    assert!(context.remove_active_region_at_point(175, 175));
    let next = context.find_active_region(175, 175);
    assert_eq!(next.map(|hit| hit.0), Some(handler(2, 2)));
    assert_ne!(found.map(|hit| hit.1), next.map(|hit| hit.1));
    assert_eq!(context.find_active_region(240, 240).map(|hit| hit.0), Some(handler(2, 2)));
}

#[test]
fn removal_where_the_lookup_found_nothing_changes_nothing() {
    let mut context = ApplicationContext::new(1872, 1404);
    context.create_active_region(100, 100, 100, 100, 1, 1);
    assert!(context.find_active_region(500, 500).is_none());
    assert!(!context.remove_active_region_at_point(500, 500));
    assert_eq!(context.find_active_region(150, 150).map(|hit| hit.0), Some(handler(1, 1)));
}

#[test]
fn lookup_and_removal_agree_outside_the_display() {
    let mut context = ApplicationContext::new(100, 100);
    context.create_active_region(500, 500, 10, 10, 9, 9);
    let found = context.find_active_region(505, 505);
    let removed = context.remove_active_region_at_point(505, 505);
    assert_eq!(found.is_some(), removed);
    assert!(context.find_active_region(505, 505).is_none());
}

#[test]
fn index_of_a_display_beyond_the_largest_coordinate_finds_regions_at_its_far_end() {
    let mut context = ApplicationContext::new(70000, 70000);
    assert_eq!(context.clear(false), appctx::display::refresh_after_clear(70000, 70000, false));
    for i in 0..20u16 {
        context.create_active_region(3000 * i, 3000 * i, 5, 5, i as u64, 0);
    }
    context.create_active_region(65500, 65500, 1000, 1000, 77, 7);
    assert_eq!(context.find_active_region(65535, 65535).map(|hit| hit.0), Some(handler(77, 7)));
    assert_eq!(context.find_active_region(65498, 65498).map(|hit| hit.0), Some(handler(77, 7)));
    assert!(context.find_active_region(65497, 65497).is_none());
}
