use window_model::LogicalSize;
use window_model::MonitorData;
use window_model::MonitorIndex;
use window_model::MonitorList;
use window_model::PhysicalSize;
use window_model::Point;
use window_model::Position;
use window_model::PositionOnMonitor;
use window_model::ScaleFactor;
use window_model::Size;

fn descriptor(width: u32, height: u32, per_mille: u32, name: &str) -> MonitorData {
    MonitorData::new(
        PhysicalSize { width, height },
        ScaleFactor { per_mille },
        Some(name.to_string()),
        Some(60_000),
    )
}

fn three_monitor_list() -> MonitorList {
    let mut list = MonitorList::empty();
    list.add_monitor(false, descriptor(1920, 1080, 1000, "left"));
    list.add_monitor(true, descriptor(2560, 1440, 1500, "middle"));
    list.add_monitor(false, descriptor(1280, 1024, 2000, "right"));
    list
}

#[test]
fn get_in_bounds_returns_matching_index() {
    let list = three_monitor_list();
    for i in 0..3usize {
        let monitor = list.get(MonitorIndex(i)).expect("index within bounds");
        assert_eq!(monitor.index(), MonitorIndex(i));
    }
    assert_eq!(
        list.get(MonitorIndex(1)).unwrap().name(),
        Some("middle")
    );
}

#[test]
fn get_out_of_bounds_is_absent() {
    let list = three_monitor_list();
    assert!(list.get(MonitorIndex(3)).is_none());
    assert!(list.get(MonitorIndex(100)).is_none());
    let empty = MonitorList::empty();
    assert!(empty.get(MonitorIndex(0)).is_none());
}

#[test]
fn iter_yields_all_views_in_append_order() {
    let list = three_monitor_list();
    let views = list.iter();
    assert_eq!(views.len(), 3);
    let names = ["left", "middle", "right"];
    for (i, view) in views.iter().enumerate() {
        assert_eq!(view.index(), MonitorIndex(i));
        assert_eq!(view.name(), Some(names[i]));
    }
}

#[test]
fn iter_twice_yields_identical_sequences() {
    let list = three_monitor_list();
    let first = list.iter();
    let second = list.iter();
    assert_eq!(first.len(), second.len());
    for (a, b) in first.iter().zip(second.iter()) {
        assert_eq!(a.index(), b.index());
        assert_eq!(a.name(), b.name());
        assert_eq!(a.size(), b.size());
        assert_eq!(a.scale_factor(), b.scale_factor());
        assert_eq!(a.refresh_rate_millihertz(), b.refresh_rate_millihertz());
        assert_eq!(a.is_primary(), b.is_primary());
    }
}

#[test]
fn last_primary_flag_wins() {
    let mut list = MonitorList::empty();
    list.add_monitor(true, descriptor(1920, 1080, 1000, "first"));
    list.add_monitor(false, descriptor(2560, 1440, 1500, "second"));
    list.add_monitor(true, descriptor(1280, 1024, 2000, "third"));
    let primary = list.primary().expect("a primary was flagged");
    assert_eq!(primary.index(), MonitorIndex(2));
    assert_eq!(primary.name(), Some("third"));
    assert!(!list.get(MonitorIndex(0)).unwrap().is_primary());
    assert!(list.get(MonitorIndex(2)).unwrap().is_primary());
}

#[test]
fn primary_absent_when_never_flagged() {
    let mut list = MonitorList::empty();
    list.add_monitor(false, descriptor(1920, 1080, 1000, "only"));
    assert!(list.primary().is_none());
}

#[test]
fn primary_or_first_falls_back_to_first() {
    let mut list = MonitorList::empty();
    list.add_monitor(false, descriptor(1920, 1080, 1000, "first"));
    list.add_monitor(false, descriptor(2560, 1440, 1500, "second"));
    let fallback = list.primary_or_first().expect("registry is non-empty");
    assert_eq!(fallback.index(), MonitorIndex(0));
    assert_eq!(fallback.name(), Some("first"));
}

#[test]
fn primary_or_first_prefers_primary() {
    let list = three_monitor_list();
    let primary = list.primary_or_first().expect("registry is non-empty");
    assert_eq!(primary.index(), MonitorIndex(1));
}

#[test]
fn primary_or_first_absent_on_empty_registry() {
    let empty = MonitorList::empty();
    assert!(empty.primary_or_first().is_none());
    assert!(empty.primary().is_none());
    assert_eq!(empty.iter().len(), 0);
}

#[test]
fn logical_size_applies_scale_factor() {
    let data = MonitorData::new(
        PhysicalSize { width: 1000, height: 800 },
        ScaleFactor { per_mille: 1500 },
        None,
        None,
    );
    let size = data.size();
    assert_eq!(size, LogicalSize { width_milli: 1_500_000, height_milli: 1_200_000 });
    assert_eq!(size.width_milli as f64 / 1000.0, 1500.0);
    assert_eq!(size.height_milli as f64 / 1000.0, 1200.0);
}

#[test]
fn view_size_matches_descriptor_size() {
    let mut list = MonitorList::empty();
    list.add_monitor(false, descriptor(1000, 800, 1500, "scaled"));
    let view = list.get(MonitorIndex(0)).unwrap();
    assert_eq!(view.size(), LogicalSize { width_milli: 1_500_000, height_milli: 1_200_000 });
    assert_eq!(view.scale_factor(), ScaleFactor { per_mille: 1500 });
    assert_eq!(view.refresh_rate_millihertz(), Some(60_000));
}

#[test]
fn position_from_point_is_specific_without_monitor() {
    let position = Position::from(Point { x_milli: 10_000, y_milli: 20_000 });
    assert_eq!(
        position,
        Position::Specific(PositionOnMonitor {
            monitor_index: None,
            position: Point { x_milli: 10_000, y_milli: 20_000 },
        })
    );
}

#[test]
fn position_on_monitor_from_point() {
    let on_monitor = PositionOnMonitor::from(Point::from_pixels(10, 20));
    assert_eq!(on_monitor.monitor_index, None);
    assert_eq!(on_monitor.position, Point { x_milli: 10_000, y_milli: 20_000 });
}

#[test]
fn position_from_position_on_monitor() {
    let on_monitor = PositionOnMonitor {
        monitor_index: Some(MonitorIndex(1)),
        position: Point::from_pixels(-5, 7),
    };
    assert_eq!(Position::from(on_monitor), Position::Specific(on_monitor));
}

#[test]
fn position_defaults_to_platform_default() {
    assert_eq!(Position::default(), Position::Default);
    let on_monitor = PositionOnMonitor::default();
    assert_eq!(on_monitor.monitor_index, None);
    assert_eq!(on_monitor.position, Point { x_milli: 0, y_milli: 0 });
}

#[test]
fn default_size_is_fixed_1024_by_768() {
    type PlainSize = Size<fn(LogicalSize) -> LogicalSize>;
    let default_size = PlainSize::default();
    assert_eq!(
        default_size,
        Size::Fixed(LogicalSize { width_milli: 1_024_000, height_milli: 768_000 })
    );
    assert_eq!(
        PlainSize::default_window_size(),
        LogicalSize::from_pixels(1024, 768)
    );
}

#[test]
fn size_from_logical_size_is_fixed() {
    let size: Size<fn(LogicalSize) -> LogicalSize> =
        Size::from(LogicalSize::from_pixels(640, 480));
    assert_eq!(size, Size::Fixed(LogicalSize { width_milli: 640_000, height_milli: 480_000 }));
}

fn halve(screen: LogicalSize) -> LogicalSize {
    LogicalSize { width_milli: screen.width_milli / 2, height_milli: screen.height_milli / 2 }
}

#[test]
fn resolve_fixed_returns_the_fixed_size() {
    let size: Size<fn(LogicalSize) -> LogicalSize> =
        Size::Fixed(LogicalSize::from_pixels(800, 600));
    let resolved = size.resolve(LogicalSize::from_pixels(2560, 1440));
    assert_eq!(resolved, LogicalSize { width_milli: 800_000, height_milli: 600_000 });
}

#[test]
fn resolve_from_screen_size_applies_the_mapping() {
    let size: Size<fn(LogicalSize) -> LogicalSize> = Size::FromScreensize(halve);
    let resolved = size.resolve(LogicalSize::from_pixels(2560, 1440));
    assert_eq!(resolved, LogicalSize { width_milli: 1_280_000, height_milli: 720_000 });
}

#[test]
fn cloned_registry_matches_its_source() {
    let list = three_monitor_list();
    let copy = list.clone();
    assert_eq!(copy.iter().len(), list.iter().len());
    assert_eq!(copy.primary().unwrap().index(), MonitorIndex(1));
    for (a, b) in list.iter().iter().zip(copy.iter().iter()) {
        assert_eq!(a.index(), b.index());
        assert_eq!(a.name(), b.name());
        assert_eq!(a.size(), b.size());
    }
    let second = descriptor(2560, 1440, 1500, "middle").clone();
    assert_eq!(second.name(), Some("middle"));
    assert_eq!(second.scale_factor(), ScaleFactor { per_mille: 1500 });
}

#[test]
fn scenario_second_monitor_flagged_primary() {
    let mut list = MonitorList::empty();
    list.add_monitor(false, descriptor(1920, 1080, 1000, "first"));
    list.add_monitor(true, descriptor(2560, 1440, 1500, "second"));
    assert_eq!(list.primary().unwrap().index(), MonitorIndex(1));
    assert!(!list.get(MonitorIndex(0)).unwrap().is_primary());
    assert!(list.get(MonitorIndex(1)).unwrap().is_primary());
}
