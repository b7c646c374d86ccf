use x11_windows::atom::AtomName;
use x11_windows::enumerate::{
    enumerate, get_active_window_id, get_window_pid, ClientReplies, DisplayReplies, PidReplies,
    ScreenReplies, Skipped,
};
use x11_windows::error::WindowError;
use x11_windows::monitor::ImplMonitor;
use x11_windows::window::{GeometryReply, ImplWindow, TranslateReply, WindowReplies};

const PID_ATOM: u32 = 500;
const LIST_ATOM: u32 = 501;
const ACTIVE_ATOM: u32 = 502;

fn monitors() -> Vec<ImplMonitor> {
    vec![
        ImplMonitor { x: 0, y: 0, width: 1920, height: 1080 },
        ImplMonitor { x: 1920, y: 0, width: 1920, height: 1080 },
    ]
}

fn client(id: u32, title: &str) -> ClientReplies {
    ClientReplies {
        id,
        pid: PidReplies { atom: Some(PID_ATOM), values: Some(vec![1000 + id]) },
        window: WindowReplies {
            title: Some(title.as_bytes().to_vec()),
            class: Some(b"term\0Term\0".to_vec()),
            geometry: Some(GeometryReply { root: 0x1e6, x: 1, y: 2, width: 640, height: 480 }),
            translated: Some(TranslateReply { dst_x: 101, dst_y: 52 }),
            state_atom: Some(600),
            hidden_atom: Some(601),
            maximized_vert_atom: Some(602),
            maximized_horz_atom: Some(603),
            states: Some(Vec::new()),
        },
    }
}

fn screen(clients: Vec<ClientReplies>) -> ScreenReplies {
    ScreenReplies { active_window: Some(Vec::new()), same_screen: Some(true), clients: Some(clients) }
}

fn display(screens: Vec<ScreenReplies>) -> DisplayReplies {
    DisplayReplies {
        client_list_atom: Some(LIST_ATOM),
        active_window_atom: Some(ACTIVE_ATOM),
        screens,
    }
}

fn described(id: u32, title: &str, z: i32, is_focused: bool) -> ImplWindow {
    ImplWindow {
        id,
        title: String::from(title),
        app_name: String::from("term"),
        pid: 1000 + id,
        current_monitor: monitors()[0],
        x: 100,
        y: 50,
        z,
        width: 640,
        height: 480,
        is_minimized: false,
        is_maximized: false,
        is_focused,
    }
}

fn ids_and_places(windows: &[ImplWindow]) -> Vec<(u32, i32)> {
    windows.iter().map(|window| (window.id, window.z)).collect()
}

#[test]
fn pid_is_the_first_value_of_the_property() {
    let mut replies = PidReplies { atom: Some(PID_ATOM), values: Some(vec![4711, 1, 2]) };
    assert_eq!(get_window_pid(&replies), Ok(4711));
    replies.values = Some(vec![0]);
    assert_eq!(get_window_pid(&replies), Ok(0));
}

#[test]
fn window_without_pid_property_has_no_pid() {
    let replies = PidReplies { atom: Some(PID_ATOM), values: Some(Vec::new()) };
    assert_eq!(get_window_pid(&replies), Err(WindowError::PidResolutionError));
}

#[test]
fn pid_needs_its_atom() {
    let mut replies = PidReplies { atom: Some(0), values: Some(vec![4711]) };
    assert_eq!(get_window_pid(&replies), Err(WindowError::UnsupportedAtom(AtomName::NetWmPid)));
    replies.atom = None;
    assert_eq!(get_window_pid(&replies), Err(WindowError::ConnectionError));
    replies.values = Some(Vec::new());
    assert_eq!(get_window_pid(&replies), Err(WindowError::ConnectionError));
}

#[test]
fn unread_pid_property_is_a_connection_error() {
    let replies = PidReplies { atom: Some(PID_ATOM), values: None };
    assert_eq!(get_window_pid(&replies), Err(WindowError::ConnectionError));
}

#[test]
fn active_window_is_the_first_value_on_the_first_root_that_has_one() {
    let mut first = screen(Vec::new());
    let mut second = screen(Vec::new());
    let mut third = screen(Vec::new());
    first.active_window = Some(Vec::new());
    second.active_window = Some(vec![77, 78]);
    third.active_window = Some(vec![99]);
    assert_eq!(get_active_window_id(Some(ACTIVE_ATOM), &vec![first, second, third]), Some(77));
}

#[test]
fn active_window_is_unknown_without_its_atom() {
    let mut root = screen(Vec::new());
    root.active_window = Some(vec![77]);
    assert_eq!(get_active_window_id(Some(0), &vec![root.clone()]), None);
    assert_eq!(get_active_window_id(None, &vec![root.clone()]), None);
    assert_eq!(get_active_window_id(Some(ACTIVE_ATOM), &vec![root]), Some(77));
}

#[test]
fn active_window_is_unknown_once_a_root_cannot_be_read() {
    let mut first = screen(Vec::new());
    let mut second = screen(Vec::new());
    first.active_window = None;
    second.active_window = Some(vec![77]);
    assert_eq!(get_active_window_id(Some(ACTIVE_ATOM), &vec![first.clone(), second.clone()]), None);
    assert_eq!(get_active_window_id(Some(ACTIVE_ATOM), &vec![second, first]), Some(77));
}

#[test]
fn active_window_is_unknown_where_no_root_names_one() {
    assert_eq!(get_active_window_id(Some(ACTIVE_ATOM), &Vec::new()), None);
    assert_eq!(
        get_active_window_id(Some(ACTIVE_ATOM), &vec![screen(Vec::new()), screen(Vec::new())]),
        None
    );
}

#[test]
fn windows_come_topmost_first() {
    let replies = display(vec![screen(vec![client(10, "a"), client(11, "b"), client(12, "c")])]);
    let windows = ImplWindow::all(&replies, &monitors()).unwrap();
    assert_eq!(
        windows,
        vec![
            described(12, "c", 2, false),
            described(11, "b", 1, false),
            described(10, "a", 0, false),
        ]
    );
}

#[test]
fn display_without_windows_has_an_empty_enumeration() {
    assert_eq!(ImplWindow::all(&display(Vec::new()), &monitors()), Ok(Vec::new()));
    assert_eq!(ImplWindow::all(&display(vec![screen(Vec::new())]), &monitors()), Ok(Vec::new()));
}

#[test]
fn places_are_counted_across_screens() {
    let replies = display(vec![
        screen(vec![client(10, "a"), client(11, "b")]),
        screen(Vec::new()),
        screen(vec![client(20, "c")]),
    ]);
    let windows = ImplWindow::all(&replies, &monitors()).unwrap();
    assert_eq!(ids_and_places(&windows), vec![(20, 2), (11, 1), (10, 0)]);
}

#[test]
fn screen_elsewhere_is_skipped() {
    let mut elsewhere = screen(vec![client(30, "x"), client(31, "y")]);
    elsewhere.same_screen = Some(false);
    let replies = display(vec![screen(vec![client(10, "a")]), elsewhere, screen(vec![client(20, "c")])]);
    let windows = ImplWindow::all(&replies, &monitors()).unwrap();
    assert_eq!(ids_and_places(&windows), vec![(20, 1), (10, 0)]);
}

#[test]
fn screen_whose_pointer_query_failed_is_skipped() {
    let mut failed = screen(vec![client(30, "x")]);
    failed.same_screen = None;
    let replies = display(vec![failed, screen(vec![client(20, "c")])]);
    let windows = ImplWindow::all(&replies, &monitors()).unwrap();
    assert_eq!(ids_and_places(&windows), vec![(20, 0)]);
}

#[test]
fn screen_whose_list_cannot_be_read_is_skipped() {
    let mut unread = screen(Vec::new());
    unread.clients = None;
    let replies = display(vec![screen(vec![client(10, "a")]), unread, screen(vec![client(20, "c")])]);
    let windows = ImplWindow::all(&replies, &monitors()).unwrap();
    assert_eq!(ids_and_places(&windows), vec![(20, 1), (10, 0)]);
}

#[test]
fn window_with_malformed_title_is_absent() {
    let mut broken = client(11, "b");
    broken.window.title = Some(vec![0xff, 0xfe]);
    let replies = display(vec![screen(vec![client(10, "a"), broken, client(12, "c")])]);
    let windows = ImplWindow::all(&replies, &monitors()).unwrap();
    assert_eq!(windows, vec![described(12, "c", 2, false), described(10, "a", 0, false)]);
    assert!(windows.iter().all(|window| window.id != 11));
    assert!(windows.iter().all(|window| !window.title.is_empty()));
}

#[test]
fn window_without_pid_leaves_the_others_as_they_were() {
    let readable = display(vec![
        screen(vec![client(10, "a"), client(11, "b")]),
        screen(vec![client(20, "c"), client(21, "d")]),
    ]);
    let before = ImplWindow::all(&readable, &monitors()).unwrap();
    assert_eq!(ids_and_places(&before), vec![(21, 3), (20, 2), (11, 1), (10, 0)]);
    for (s, c, place) in [(0, 0, 0), (0, 1, 1), (1, 0, 2), (1, 1, 3)] {
        let mut unreadable = readable.clone();
        unreadable.screens[s].clients.as_mut().unwrap()[c].pid.values = Some(Vec::new());
        let after = ImplWindow::all(&unreadable, &monitors()).unwrap();
        let expected: Vec<ImplWindow> =
            before.iter().filter(|window| window.z != place).cloned().collect();
        assert_eq!(after, expected);
        assert_eq!(after.len(), 3);
    }
}

#[test]
fn places_of_the_described_windows_may_have_gaps() {
    let mut gone = client(11, "b");
    gone.pid.values = None;
    let replies = display(vec![screen(vec![client(10, "a"), gone, client(12, "c")])]);
    let windows = ImplWindow::all(&replies, &monitors()).unwrap();
    assert_eq!(ids_and_places(&windows), vec![(12, 2), (10, 0)]);
}

#[test]
fn places_fall_by_one_where_every_window_is_described() {
    let clients: Vec<ClientReplies> = (0..50).map(|id| client(id, "w")).collect();
    let replies = display(vec![screen(clients[..20].to_vec()), screen(clients[20..].to_vec())]);
    let windows = ImplWindow::all(&replies, &monitors()).unwrap();
    assert_eq!(windows.len(), 50);
    for (i, window) in windows.iter().enumerate() {
        assert_eq!(window.z, 49 - i as i32);
        assert_eq!(window.id, 49 - i as u32);
    }
}

#[test]
fn places_are_distinct_and_fall_along_the_enumeration() {
    let mut clients: Vec<ClientReplies> = (0..12).map(|id| client(id, "w")).collect();
    clients[0].pid.values = Some(Vec::new());
    clients[5].window.title = Some(vec![0x80]);
    clients[6].window.geometry = None;
    clients[11].window.states = None;
    let replies = display(vec![screen(clients)]);
    let windows = ImplWindow::all(&replies, &monitors()).unwrap();
    assert_eq!(
        ids_and_places(&windows),
        vec![(10, 10), (9, 9), (8, 8), (7, 7), (4, 4), (3, 3), (2, 2), (1, 1)]
    );
    for pair in windows.windows(2) {
        assert!(pair[0].z > pair[1].z);
    }
}

#[test]
fn focused_window_is_the_active_one() {
    let mut root = screen(vec![client(10, "a"), client(11, "b"), client(12, "c")]);
    root.active_window = Some(vec![11]);
    let windows = ImplWindow::all(&display(vec![root]), &monitors()).unwrap();
    assert_eq!(
        windows,
        vec![
            described(12, "c", 2, false),
            described(11, "b", 1, true),
            described(10, "a", 0, false),
        ]
    );
}

#[test]
fn no_window_is_focused_without_active_window_tracking() {
    let mut root = screen(vec![client(10, "a"), client(11, "b")]);
    root.active_window = Some(vec![11]);
    let mut replies = display(vec![root]);
    replies.active_window_atom = Some(0);
    let windows = ImplWindow::all(&replies, &monitors()).unwrap();
    assert_eq!(windows, vec![described(11, "b", 1, false), described(10, "a", 0, false)]);
    replies.active_window_atom = None;
    let windows = ImplWindow::all(&replies, &monitors()).unwrap();
    assert_eq!(windows, vec![described(11, "b", 1, false), described(10, "a", 0, false)]);
}

#[test]
fn active_window_of_a_skipped_screen_still_counts() {
    let mut first = screen(vec![client(30, "x")]);
    first.same_screen = Some(false);
    first.active_window = Some(vec![20]);
    let replies = display(vec![first, screen(vec![client(20, "c")])]);
    let windows = ImplWindow::all(&replies, &monitors()).unwrap();
    assert_eq!(windows, vec![described(20, "c", 0, true)]);
}

#[test]
fn enumeration_needs_the_stacking_list() {
    let mut replies = display(vec![screen(vec![client(10, "a")])]);
    replies.client_list_atom = Some(0);
    assert_eq!(
        ImplWindow::all(&replies, &monitors()),
        Err(WindowError::UnsupportedAtom(AtomName::NetClientListStacking))
    );
    replies.client_list_atom = None;
    assert_eq!(ImplWindow::all(&replies, &monitors()), Err(WindowError::ConnectionError));
}

#[test]
fn enumeration_without_monitors_is_empty() {
    let replies = display(vec![screen(vec![client(10, "a"), client(11, "b")])]);
    assert_eq!(ImplWindow::all(&replies, &Vec::new()), Ok(Vec::new()));
}

#[test]
fn listed_window_is_described_at_its_place() {
    let monitors = monitors();
    let mut replies = client(11, "b");
    replies.window.translated = Some(TranslateReply { dst_x: 2001, dst_y: 2 });
    replies.window.states = Some(vec![601]);
    let window = replies.resolve(5, Some(11), &monitors).unwrap();
    assert_eq!(
        window,
        ImplWindow {
            id: 11,
            title: String::from("b"),
            app_name: String::from("term"),
            pid: 1011,
            current_monitor: monitors[1],
            x: 2000,
            y: 0,
            z: 5,
            width: 640,
            height: 480,
            is_minimized: true,
            is_maximized: false,
            is_focused: true,
        }
    );
    assert!(!replies.resolve(5, Some(12), &monitors).unwrap().is_focused);
    assert!(!replies.resolve(5, None, &monitors).unwrap().is_focused);
}

#[test]
fn pid_is_read_before_the_window_is_described() {
    let mut replies = client(11, "b");
    replies.pid.values = Some(Vec::new());
    replies.window.title = None;
    assert_eq!(replies.resolve(0, None, &monitors()), Err(WindowError::PidResolutionError));
    replies.pid.values = Some(vec![1]);
    assert_eq!(replies.resolve(0, None, &monitors()), Err(WindowError::ConnectionError));
}

#[test]
fn every_enumerated_window_is_on_its_best_monitor_and_in_one_state() {
    let monitors = monitors();
    let mut clients: Vec<ClientReplies> = Vec::new();
    for (i, dst_x) in [0i16, 1500, 1800, 1801, 1920, 4000, -700].into_iter().enumerate() {
        let mut replies = client(i as u32, "w");
        replies.window.geometry = Some(GeometryReply { root: 0x1e6, x: 0, y: 0, width: 240, height: 100 });
        replies.window.translated = Some(TranslateReply { dst_x, dst_y: 0 });
        replies.window.states = Some(match i % 4 {
            0 => vec![],
            1 => vec![601],
            2 => vec![602, 603],
            _ => vec![601, 602, 603],
        });
        clients.push(replies);
    }
    let windows = ImplWindow::all(&display(vec![screen(clients)]), &monitors).unwrap();
    assert_eq!(windows.len(), 7);
    for window in &windows {
        assert!(!(window.is_minimized && window.is_maximized));
        let rect = x11_windows::rect::Rect::new(window.x, window.y, window.width, window.height);
        let own = rect.overlap_area(window.current_monitor.rect());
        let index = monitors.iter().position(|m| *m == window.current_monitor).unwrap();
        for (j, other) in monitors.iter().enumerate() {
            assert!(rect.overlap_area(other.rect()) <= own);
            if j < index {
                assert!(rect.overlap_area(other.rect()) < own);
            }
        }
    }
}

#[test]
fn small_displays_are_countable() {
    assert!(display(Vec::new()).countable());
    assert!(display(vec![screen(vec![client(1, "a"), client(2, "b")])]).countable());
}

#[test]
fn skipped_windows_are_reported_with_the_reason() {
    let mut clients: Vec<ClientReplies> = (0..6).map(|id| client(100 + id, "w")).collect();
    clients[0].pid.values = Some(Vec::new());
    clients[2].window.title = Some(vec![0x80]);
    clients[3].pid.atom = Some(0);
    clients[5].window.geometry = None;
    let mut elsewhere = screen(vec![client(1, "x")]);
    elsewhere.same_screen = Some(false);
    let replies = display(vec![elsewhere, screen(clients[..3].to_vec()), screen(clients[3..].to_vec())]);
    let found = enumerate(&replies, &monitors()).unwrap();
    assert_eq!(found.windows, vec![described(104, "w", 4, false), described(101, "w", 1, false)]);
    assert_eq!(
        found.skipped,
        vec![
            Skipped { id: 100, z: 0, error: WindowError::PidResolutionError },
            Skipped { id: 102, z: 2, error: WindowError::TextDecodeError },
            Skipped { id: 103, z: 3, error: WindowError::UnsupportedAtom(AtomName::NetWmPid) },
            Skipped { id: 105, z: 5, error: WindowError::ConnectionError },
        ]
    );
    assert_eq!(found.windows.len() + found.skipped.len(), 6);
    assert_eq!(ImplWindow::all(&replies, &monitors()), Ok(found.windows));
}

#[test]
fn without_monitors_every_listed_window_is_skipped() {
    let replies = display(vec![screen(vec![client(10, "a"), client(11, "b")])]);
    let found = enumerate(&replies, &Vec::new()).unwrap();
    assert!(found.windows.is_empty());
    assert_eq!(
        found.skipped,
        vec![
            Skipped { id: 10, z: 0, error: WindowError::NoMonitors },
            Skipped { id: 11, z: 1, error: WindowError::NoMonitors },
        ]
    );
}

#[test]
fn enumeration_that_fails_reports_nothing() {
    let mut replies = display(vec![screen(vec![client(10, "a")])]);
    replies.client_list_atom = Some(0);
    assert_eq!(
        enumerate(&replies, &monitors()),
        Err(WindowError::UnsupportedAtom(AtomName::NetClientListStacking))
    );
}
