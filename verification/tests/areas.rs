use cyber_tui::app::App;
use cyber_tui::layout::{
    bordered_inner, centered, centered_sizes, create_modal_areas, error_box_area, frame_areas,
    login_areas, post_text_area, reply_modal_areas, room_areas, Area, Size,
};
use cyber_tui::session::Session;
use ratatui::layout::{Constraint, Direction, Layout, Rect};
use ratatui::widgets::{Block, Borders};

fn area(x: u16, y: u16, width: u16, height: u16) -> Area {
    Area { x, y, width, height }
}

#[test]
fn error_box_geometry() {
    let mut app = App::new(Session::default());
    assert_eq!(error_box_area(&app, area(0, 0, 120, 40)), None);
    app.set_error("boom".to_string());
    assert_eq!(error_box_area(&app, area(0, 0, 120, 40)), Some(area(15, 1, 90, 3)));
    assert_eq!(error_box_area(&app, area(22, 0, 50, 20)), Some(area(24, 1, 46, 3)));
    assert_eq!(error_box_area(&app, area(0, 0, 9, 20)), None);
    assert_eq!(error_box_area(&app, area(0, 0, 50, 2)), None);
    assert_eq!(error_box_area(&app, area(3, 5, 10, 3)), Some(area(5, 6, 6, 3)));
}

#[test]
fn bordered_inner_matches_ratatui() {
    for a in [area(0, 0, 10, 5), area(3, 4, 1, 1), area(2, 2, 0, 0), area(65534, 65534, 1, 1)] {
        let r = Block::default().borders(Borders::ALL).inner(Rect { x: a.x, y: a.y, width: a.width, height: a.height });
        assert_eq!(bordered_inner(a), area(r.x, r.y, r.width, r.height));
    }
}

#[test]
fn post_text_area_matches_ratatui() {
    for a in [area(0, 0, 10, 5), area(3, 4, 3, 9), area(2, 2, 4, 2), area(65534, 65534, 10, 10)] {
        let r = Rect { x: a.x, y: a.y, width: a.width, height: a.height }
            .inner(ratatui::layout::Margin { vertical: 1, horizontal: 2 });
        assert_eq!(post_text_area(a), area(r.x, r.y, r.width, r.height));
    }
}

#[test]
fn centred_overlays() {
    assert_eq!(centered_sizes(72), vec![Size::Percentage(14), Size::Percentage(72), Size::Percentage(14)]);
    assert_eq!(centered_sizes(100), vec![Size::Percentage(0), Size::Percentage(100), Size::Percentage(0)]);
    assert_eq!(centered(area(0, 0, 100, 100), 50, 100), area(25, 0, 50, 100));
    let a = area(22, 0, 98, 38);
    let rows = Layout::default()
        .direction(Direction::Vertical)
        .constraints([Constraint::Percentage(11), Constraint::Percentage(78), Constraint::Percentage(11)])
        .split(Rect { x: a.x, y: a.y, width: a.width, height: a.height });
    let cols = Layout::default()
        .direction(Direction::Horizontal)
        .constraints([Constraint::Percentage(14), Constraint::Percentage(72), Constraint::Percentage(14)])
        .split(rows[1]);
    let c = cols[1];
    assert_eq!(centered(a, 72, 78), area(c.x, c.y, c.width, c.height));
}

#[test]
fn frame_with_and_without_sidebar() {
    let f = frame_areas(area(0, 0, 100, 30), true);
    assert_eq!(f.sidebar, area(0, 0, 22, 30));
    assert_eq!(f.main, area(22, 0, 78, 28));
    assert_eq!(f.status, area(22, 28, 78, 2));
    let f = frame_areas(area(0, 0, 100, 30), false);
    assert_eq!(f.sidebar.width, 0);
    assert_eq!(f.main, area(0, 0, 100, 28));
}

#[test]
fn login_and_room_rows() {
    let rows = login_areas(area(0, 0, 80, 40));
    assert_eq!(rows.len(), 5);
    assert_eq!(rows[0], area(0, 0, 80, 12));
    assert_eq!(rows[1], area(0, 12, 80, 3));
    assert_eq!(rows[2], area(0, 15, 80, 3));
    assert_eq!(rows[3], area(0, 18, 80, 2));
    let (msgs, input) = room_areas(area(1, 1, 50, 20));
    assert_eq!(msgs, area(1, 1, 50, 17));
    assert_eq!(input, area(1, 18, 50, 3));
}

#[test]
fn centred_overlay_lies_within_its_area() {
    for a in [area(0, 0, 7, 3), area(10, 4, 33, 17), area(65000, 65000, 535, 535), area(5, 5, 0, 0)] {
        let c = centered(a, 60, 40);
        assert!(a.x <= c.x && c.x as u32 + c.width as u32 <= a.x as u32 + a.width as u32);
        assert!(a.y <= c.y && c.y as u32 + c.height as u32 <= a.y as u32 + a.height as u32);
    }
}

#[test]
fn modal_rows() {
    let (title, content) = create_modal_areas(area(5, 5, 40, 20));
    assert_eq!(title, area(5, 5, 40, 3));
    assert_eq!(content, area(5, 8, 40, 17));
    let (message, hint) = reply_modal_areas(area(5, 5, 40, 10));
    assert_eq!(message, area(5, 5, 40, 9));
    assert_eq!(hint, area(5, 14, 40, 1));
}

#[test]
fn error_box_near_the_right_edge() {
    let mut app = App::new(Session::default());
    app.set_error("x".to_string());
    assert_eq!(error_box_area(&app, area(65500, 0, 40, 5)), Some(area(65502, 1, 36, 3)));
}
