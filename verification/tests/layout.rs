use gist::layout::{bands, centered_rect, main_panels, Area, Axis};

fn share(length: u16, percent: u16) -> u16 {
    ((length as u32 * percent as u32 + 50) / 100) as u16
}

fn sizes() -> Vec<(u16, u16)> {
    vec![
        (0, 0), (0, 1), (0, 2), (0, 3), (0, 5), (0, 7), (0, 10), (0, 24), (0, 25), (0, 50),
        (0, 79), (0, 80), (0, 99), (0, 100), (0, 101), (0, 150), (0, 250), (0, 1000),
        (0, 65535), (1, 1), (3, 50), (7, 33), (100, 100), (1000, 250), (65000, 535),
        (65534, 1), (65535, 0), (40000, 25535), (12, 345), (9, 10),
    ]
}

fn expected_bands(start: u16, length: u16, percent: u16) -> [(u16, u16); 3] {
    let side = (100 - percent) / 2;
    let a = start + share(length, side);
    let b = start + share(length, side + percent);
    let c = start + share(length, side + percent + side);
    [(start, a - start), (a, b - a), (b, c - b)]
}

#[test]
fn horizontal_bands_take_their_rounded_shares() {
    for (x, width) in sizes() {
        for percent in 0..=100u16 {
            let area = Area { x, y: 4, width, height: 9 };
            let parts = bands(Axis::Horizontal, percent, area);
            let want = expected_bands(x, width, percent);
            assert_eq!(parts.len(), 3);
            for i in 0..3 {
                let got = parts[i];
                assert_eq!(
                    (got.x, got.width, got.y, got.height),
                    (want[i].0, want[i].1, 4, 9),
                    "part {} of {:?} at {} percent",
                    i,
                    area,
                    percent
                );
            }
        }
    }
}

#[test]
fn vertical_bands_take_their_rounded_shares() {
    for (y, height) in sizes() {
        for percent in 0..=100u16 {
            let area = Area { x: 2, y, width: 11, height };
            let parts = bands(Axis::Vertical, percent, area);
            let want = expected_bands(y, height, percent);
            assert_eq!(parts.len(), 3);
            for i in 0..3 {
                let got = parts[i];
                assert_eq!(
                    (got.y, got.height, got.x, got.width),
                    (want[i].0, want[i].1, 2, 11),
                    "part {} of {:?} at {} percent",
                    i,
                    area,
                    percent
                );
            }
        }
    }
}

#[test]
fn the_dialog_takes_its_rounded_share_in_the_middle() {
    for (x, width) in sizes() {
        for (y, height) in [(0u16, 0u16), (0, 1), (0, 24), (3, 50), (0, 61), (65000, 535)] {
            for (px, py) in [(60u16, 20u16), (0, 0), (100, 100), (33, 77), (1, 99), (50, 50)] {
                let r = Area { x, y, width, height };
                let row = expected_bands(y, height, py)[1];
                let column = expected_bands(x, width, px)[1];
                assert_eq!(
                    centered_rect(px, py, r),
                    Area { x: column.0, y: row.0, width: column.1, height: row.1 },
                    "{:?} at {} by {} percent",
                    r,
                    px,
                    py
                );
            }
        }
    }
}

#[test]
fn the_panels_take_their_rounded_shares() {
    for (x, width) in sizes() {
        for (y, height) in sizes() {
            let size = Area { x, y, width, height };
            let p = main_panels(size);
            let line = if height > 0 { 1 } else { 0 };
            let list = share(width, 30);
            assert_eq!(p.status, Area { x, y: y + height - line, width, height: line }, "{:?}", size);
            assert_eq!(p.list, Area { x, y, width: list, height: height - line }, "{:?}", size);
            assert_eq!(
                p.content,
                Area { x: x + list, y, width: width - list, height: height - line },
                "{:?}",
                size
            );
        }
    }
}

fn reach(start: u16, length: u16) -> u16 {
    length.min(u16::MAX - start)
}

#[test]
fn an_area_that_runs_past_the_last_cell_is_cut_there() {
    for (start, length) in [(65000u16, 1000u16), (65535, 1), (65535, 65535), (1, 65535), (40000, 40000), (65534, 3)] {
        let l = reach(start, length);
        for percent in [0u16, 1, 20, 33, 50, 60, 77, 99, 100] {
            let want = expected_bands(start, l, percent);
            let across = Area { x: start, y: 2, width: length, height: 7 };
            let parts = bands(Axis::Horizontal, percent, across);
            for i in 0..3 {
                assert_eq!(
                    (parts[i].x, parts[i].width, parts[i].y, parts[i].height),
                    (want[i].0, want[i].1, 2, 7),
                    "part {} of {:?} at {} percent",
                    i,
                    across,
                    percent
                );
            }
            let down = Area { x: 2, y: start, width: 7, height: length };
            let parts = bands(Axis::Vertical, percent, down);
            for i in 0..3 {
                assert_eq!(
                    (parts[i].y, parts[i].height, parts[i].x, parts[i].width),
                    (want[i].0, want[i].1, 2, 7),
                    "part {} of {:?} at {} percent",
                    i,
                    down,
                    percent
                );
            }
        }
        let size = Area { x: start, y: start, width: length, height: length };
        let p = main_panels(size);
        let line = if l > 0 { 1 } else { 0 };
        let list = share(l, 30);
        assert_eq!(p.status, Area { x: start, y: start + l - line, width: length, height: line });
        assert_eq!(p.list, Area { x: start, y: start, width: list, height: l - line });
        assert_eq!(p.content, Area { x: start + list, y: start, width: l - list, height: l - line });
    }
}
