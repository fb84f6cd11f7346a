use display_adapter::config::Workspace;
use display_adapter::geometry::{BBox, Size};
use display_adapter::resolver::ResolveError;
use display_adapter::screen::Screen;
use display_adapter::topology::{find_monitor, Monitor, Topology};
use display_adapter::window::WindowHandle;

fn monitor(name: &str, x: i32, y: i32, width_px: i32, height_px: i32) -> Monitor {
    Monitor { name: name.to_string(), x, y, width_px, height_px }
}

fn named(name: &str) -> Workspace {
    let mut wsc = Workspace::default();
    wsc.output_name = Some(name.to_string());
    wsc
}

fn literal(x: i32, y: i32, width: i32, height: i32) -> Workspace {
    let mut wsc = Workspace::default();
    wsc.x = Some(x);
    wsc.y = Some(y);
    wsc.width = Some(width);
    wsc.height = Some(height);
    wsc
}

#[test]
fn default_workspace_says_nothing() {
    let wsc = Workspace::default();
    assert_eq!(wsc.x, None);
    assert_eq!(wsc.y, None);
    assert_eq!(wsc.width, None);
    assert_eq!(wsc.height, None);
    assert_eq!(wsc.id, None);
    assert_eq!(wsc.output_name, None);
    assert_eq!(wsc.max_window_width, None);
    assert_eq!(wsc.layouts, None);
    assert!(!wsc.is_literal());
    assert!(!wsc.needs_topology());
}

#[test]
fn literal_config_resolves_without_topology() {
    let wsc = literal(10, 20, 800, 600);
    assert!(wsc.is_literal());
    assert!(!wsc.needs_topology());
    let s = Screen::try_from(&wsc, &Topology::Unavailable).unwrap();
    assert_eq!(s.bbox, BBox { x: 10, y: 20, width: 800, height: 600 });
    assert_eq!(s.root, WindowHandle::MockHandle(0));
}

#[test]
fn literal_config_ignores_the_monitors() {
    let wsc = literal(10, 20, 800, 600);
    let topology = Topology::Monitors(vec![monitor("HDMI-1", 0, 0, 1920, 1080)]);
    let with = Screen::try_from(&wsc, &topology);
    let without = Screen::try_from(&wsc, &Topology::Unavailable);
    assert_eq!(with, without);
    assert_eq!(with.unwrap().bbox, BBox { x: 10, y: 20, width: 800, height: 600 });
}

#[test]
fn named_output_takes_monitor_rectangle() {
    let wsc = named("HDMI-1");
    assert!(wsc.needs_topology());
    assert!(!wsc.is_literal());
    let topology = Topology::Monitors(vec![monitor("HDMI-1", 0, 0, 1920, 1080)]);
    let s = Screen::try_from(&wsc, &topology).unwrap();
    assert_eq!(s.bbox, BBox { x: 0, y: 0, width: 1920, height: 1080 });
    assert_eq!(s.root, WindowHandle::MockHandle(0));
    assert_eq!(s.wsid, None);
}

#[test]
fn named_output_is_found_among_several() {
    let wsc = named("DP-2");
    let topology = Topology::Monitors(vec![
        monitor("eDP-1", 0, 0, 1366, 768),
        monitor("DP-2", 1366, 0, 2560, 1440),
        monitor("HDMI-1", 3926, 0, 1920, 1080),
    ]);
    let s = Screen::try_from(&wsc, &topology).unwrap();
    assert_eq!(s.bbox, BBox { x: 1366, y: 0, width: 2560, height: 1440 });
}

#[test]
fn first_monitor_of_a_name_wins() {
    let wsc = named("DP-2");
    let monitors = vec![
        monitor("eDP-1", 0, 0, 1366, 768),
        monitor("DP-2", 1, 2, 3, 4),
        monitor("DP-2", 5, 6, 7, 8),
    ];
    assert_eq!(find_monitor(&monitors, &"DP-2".to_string()), Some(1));
    assert_eq!(find_monitor(&monitors, &"eDP-1".to_string()), Some(0));
    assert_eq!(find_monitor(&monitors, &"dp-2".to_string()), None);
    assert_eq!(find_monitor(&Vec::new(), &"DP-2".to_string()), None);
    let s = Screen::try_from(&wsc, &Topology::Monitors(monitors)).unwrap();
    assert_eq!(s.bbox, BBox { x: 1, y: 2, width: 3, height: 4 });
}

#[test]
fn name_must_match_exactly() {
    let topology = Topology::Monitors(vec![monitor("HDMI-1", 0, 0, 1920, 1080)]);
    assert_eq!(Screen::try_from(&named("HDMI-10"), &topology), Err(ResolveError::MonitorNotFound));
    assert_eq!(Screen::try_from(&named("HDMI-"), &topology), Err(ResolveError::MonitorNotFound));
    assert_eq!(Screen::try_from(&named("hdmi-1"), &topology), Err(ResolveError::MonitorNotFound));
    assert_eq!(Screen::try_from(&named(""), &topology), Err(ResolveError::MonitorNotFound));
}

#[test]
fn missing_output_is_monitor_not_found() {
    let wsc = named("missing");
    let topology = Topology::Monitors(vec![monitor("HDMI-1", 0, 0, 1920, 1080)]);
    assert_eq!(Screen::try_from(&wsc, &topology), Err(ResolveError::MonitorNotFound));
    assert_eq!(
        Screen::try_from(&wsc, &Topology::Monitors(Vec::new())),
        Err(ResolveError::MonitorNotFound)
    );
}

#[test]
fn missing_output_never_falls_back_to_coordinates() {
    let mut wsc = literal(10, 20, 800, 600);
    wsc.output_name = Some("missing".to_string());
    let topology = Topology::Monitors(vec![monitor("HDMI-1", 0, 0, 1920, 1080)]);
    assert_eq!(Screen::try_from(&wsc, &topology), Err(ResolveError::MonitorNotFound));
}

#[test]
fn named_output_without_topology_is_unavailable() {
    assert_eq!(
        Screen::try_from(&named("HDMI-1"), &Topology::Unavailable),
        Err(ResolveError::TopologyUnavailable)
    );
    let mut wsc = literal(10, 20, 800, 600);
    wsc.output_name = Some("HDMI-1".to_string());
    assert_eq!(
        Screen::try_from(&wsc, &Topology::Unavailable),
        Err(ResolveError::TopologyUnavailable)
    );
}

#[test]
fn partial_coordinates_are_ambiguous() {
    let mut wsc = Workspace::default();
    wsc.x = Some(1);
    assert_eq!(
        Screen::try_from(&wsc, &Topology::Unavailable),
        Err(ResolveError::AmbiguousWorkspaceConfig)
    );
    let topology = Topology::Monitors(vec![monitor("HDMI-1", 0, 0, 1920, 1080)]);
    assert_eq!(Screen::try_from(&wsc, &topology), Err(ResolveError::AmbiguousWorkspaceConfig));
}

#[test]
fn each_missing_coordinate_is_ambiguous() {
    let mut no_x = literal(1, 2, 3, 4);
    no_x.x = None;
    let mut no_y = literal(1, 2, 3, 4);
    no_y.y = None;
    let mut no_width = literal(1, 2, 3, 4);
    no_width.width = None;
    let mut no_height = literal(1, 2, 3, 4);
    no_height.height = None;
    for wsc in [no_x, no_y, no_width, no_height, Workspace::default()] {
        assert!(!wsc.is_literal());
        assert_eq!(
            Screen::try_from(&wsc, &Topology::Unavailable),
            Err(ResolveError::AmbiguousWorkspaceConfig)
        );
    }
}

#[test]
fn configured_coordinates_override_the_monitor() {
    let mut wsc = named("HDMI-1");
    wsc.width = Some(960);
    wsc.height = Some(540);
    let topology = Topology::Monitors(vec![monitor("HDMI-1", 100, 200, 1920, 1080)]);
    let s = Screen::try_from(&wsc, &topology).unwrap();
    assert_eq!(s.bbox, BBox { x: 100, y: 200, width: 960, height: 540 });
}

#[test]
fn vertical_origin_follows_configured_x() {
    let topology = Topology::Monitors(vec![monitor("HDMI-1", 100, 200, 1920, 1080)]);
    let mut wsc = named("HDMI-1");
    wsc.x = Some(7);
    wsc.y = Some(9);
    let s = Screen::try_from(&wsc, &topology).unwrap();
    assert_eq!(s.bbox, BBox { x: 7, y: 7, width: 1920, height: 1080 });
    let mut only_y = named("HDMI-1");
    only_y.y = Some(9);
    let t = Screen::try_from(&only_y, &topology).unwrap();
    assert_eq!(t.bbox, BBox { x: 100, y: 200, width: 1920, height: 1080 });
}

#[test]
fn wsid_and_width_limit_are_carried() {
    let mut wsc = literal(0, 0, 10, 10);
    wsc.id = Some(3);
    wsc.max_window_width = Some(Size::Pixel(1200));
    wsc.layouts = Some(vec!["Monocle".to_string()]);
    let s = Screen::try_from(&wsc, &Topology::Unavailable).unwrap();
    assert_eq!(s.wsid, Some(3));
    assert_eq!(s.max_window_width, Some(Size::Pixel(1200)));

    let mut on_output = named("HDMI-1");
    on_output.id = Some(-4);
    on_output.max_window_width = Some(Size::Ratio(0x3f00_0000));
    let topology = Topology::Monitors(vec![monitor("HDMI-1", 0, 0, 1920, 1080)]);
    let t = Screen::try_from(&on_output, &topology).unwrap();
    assert_eq!(t.wsid, Some(-4));
    assert_eq!(t.max_window_width, Some(Size::Ratio(0x3f00_0000)));
}
