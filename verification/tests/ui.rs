use json_editor::ui::{centered_rect, side_percentage, Rect};

fn inside(outer: Rect, inner: Rect) -> bool {
    let right = outer.x.saturating_add(outer.width) as u32;
    let bottom = outer.y.saturating_add(outer.height) as u32;
    outer.x <= inner.x
        && inner.x as u32 + inner.width as u32 <= right
        && outer.y <= inner.y
        && inner.y as u32 + inner.height as u32 <= bottom
}

#[test]
fn side_percentage_is_half_of_the_rest() {
    assert_eq!(side_percentage(60), 20);
    assert_eq!(side_percentage(25), 37);
    assert_eq!(side_percentage(0), 50);
    assert_eq!(side_percentage(100), 0);
    assert_eq!(side_percentage(99), 0);
    assert_eq!(side_percentage(1), 49);
}

#[test]
fn half_of_a_square_is_centered_exactly() {
    let area = Rect { x: 0, y: 0, width: 100, height: 100 };
    assert_eq!(
        centered_rect(50, 50, area),
        Rect { x: 25, y: 25, width: 50, height: 50 }
    );
}

#[test]
fn the_exit_prompt_sits_in_the_middle_of_a_terminal() {
    let area = Rect { x: 0, y: 0, width: 100, height: 40 };
    let popup = centered_rect(60, 25, area);
    assert_eq!(popup, Rect { x: 20, y: 15, width: 60, height: 10 });
    assert!(inside(area, popup));
}

#[test]
fn an_offset_area_keeps_its_offset() {
    let area = Rect { x: 10, y: 5, width: 40, height: 20 };
    assert_eq!(
        centered_rect(50, 50, area),
        Rect { x: 20, y: 10, width: 20, height: 10 }
    );
}

#[test]
fn the_popup_lies_inside_the_area() {
    let areas = [
        Rect { x: 0, y: 0, width: 80, height: 24 },
        Rect { x: 3, y: 7, width: 1, height: 1 },
        Rect { x: 0, y: 0, width: 0, height: 0 },
        Rect { x: 65000, y: 65000, width: 535, height: 535 },
        Rect { x: 0, y: 0, width: 65535, height: 1 },
    ];
    for area in areas {
        for percent in [0u16, 1, 25, 33, 50, 60, 99, 100] {
            let popup = centered_rect(percent, 100 - percent, area);
            assert!(inside(area, popup));
        }
    }
}

#[test]
fn the_whole_area_at_one_hundred_percent() {
    let area = Rect { x: 2, y: 3, width: 30, height: 10 };
    assert_eq!(centered_rect(100, 100, area), area);
}
