use window_tracker::taskbar::{
    edge_distance, get_taskbars, subscribe_to_tables, sync_taskbars, Taskbar, WindowsTaskbar,
};
use window_tracker::Rect;

#[test]
fn distance_between_ordered_edges_is_exact() {
    assert_eq!(edge_distance(0, 0), 0);
    assert_eq!(edge_distance(0, 1920), 1920);
    assert_eq!(edge_distance(-1920, 0), 1920);
    assert_eq!(edge_distance(-10, 30), 40);
    assert_eq!(edge_distance(i32::MIN, i32::MAX), u32::MAX);
}

#[test]
fn distance_between_swapped_edges_wraps() {
    assert_eq!(edge_distance(1, 0), u32::MAX);
    assert_eq!(edge_distance(100, 60), 60u32.wrapping_sub(100));
    assert_eq!(edge_distance(i32::MAX, i32::MIN), 1);
}

#[test]
fn row_of_a_taskbar() {
    let found = WindowsTaskbar {
        id: 3,
        rect: Rect::new(0, 1040, 1920, 1080),
        is_secondary: true,
        apps: vec!["Editor".to_string(), "Shell".to_string()],
    };
    let row = Taskbar::from(found);
    assert_eq!(row.id, 3);
    assert!(row.is_secondary);
    assert_eq!((row.x, row.y, row.width, row.height), (0, 1040, 1920, 40));
    assert_eq!(row.apps, vec!["Editor".to_string(), "Shell".to_string()]);
}

#[test]
fn sync_makes_one_row_per_taskbar_in_order() {
    let found = vec![
        WindowsTaskbar { id: 0, rect: Rect::new(0, 1040, 1920, 1080), is_secondary: false, apps: vec!["a".to_string()] },
        WindowsTaskbar { id: 1, rect: Rect::new(-1280, 0, -1240, 1024), is_secondary: true, apps: vec![] },
    ];
    let rows = sync_taskbars(found);
    assert_eq!(rows.len(), 2);
    assert_eq!((rows[0].id, rows[0].is_secondary), (0, false));
    assert_eq!((rows[0].x, rows[0].y, rows[0].width, rows[0].height), (0, 1040, 1920, 40));
    assert_eq!(rows[0].apps, vec!["a".to_string()]);
    assert_eq!((rows[1].id, rows[1].is_secondary), (1, true));
    assert_eq!((rows[1].x, rows[1].y, rows[1].width, rows[1].height), (-1280, 0, 40, 1024));
    assert!(rows[1].apps.is_empty());
    assert!(sync_taskbars(vec![]).is_empty());
}

#[test]
fn subscription_asks_for_the_taskbar_table() {
    assert_eq!(subscribe_to_tables(), vec!["SELECT * FROM taskbar"]);
}

#[test]
fn taskbars_are_numbered_primary_first() {
    let primary = vec![(Rect::new(0, 1040, 1920, 1080), vec!["Editor".to_string()])];
    let secondary = vec![
        (Rect::new(1920, 1040, 3840, 1080), vec![]),
        (Rect::new(-1920, 1040, 0, 1080), vec!["Shell".to_string(), "Mail".to_string()]),
    ];
    let taskbars = get_taskbars(primary, secondary);
    assert_eq!(taskbars.len(), 3);
    let ids: Vec<u32> = taskbars.iter().map(|t| t.id).collect();
    assert_eq!(ids, vec![0, 1, 2]);
    let kinds: Vec<bool> = taskbars.iter().map(|t| t.is_secondary).collect();
    assert_eq!(kinds, vec![false, true, true]);
    assert_eq!(taskbars[0].rect, Rect::new(0, 1040, 1920, 1080));
    assert_eq!(taskbars[0].apps, vec!["Editor".to_string()]);
    assert_eq!(taskbars[1].rect, Rect::new(1920, 1040, 3840, 1080));
    assert!(taskbars[1].apps.is_empty());
    assert_eq!(taskbars[2].rect, Rect::new(-1920, 1040, 0, 1080));
    assert_eq!(taskbars[2].apps, vec!["Shell".to_string(), "Mail".to_string()]);
}

#[test]
fn no_taskbars_found() {
    assert!(get_taskbars(vec![], vec![]).is_empty());
    let only_secondary = get_taskbars(vec![], vec![(Rect::new(0, 0, 1, 1), vec![])]);
    assert_eq!((only_secondary[0].id, only_secondary[0].is_secondary), (0, true));
}

#[test]
fn found_taskbars_become_rows() {
    let rows = sync_taskbars(get_taskbars(
        vec![(Rect::new(0, 1040, 1920, 1080), vec![])],
        vec![(Rect::new(1920, 0, 1960, 1080), vec![])],
    ));
    assert_eq!((rows[0].id, rows[0].width, rows[0].height), (0, 1920, 40));
    assert_eq!((rows[1].id, rows[1].width, rows[1].height), (1, 40, 1080));
}
