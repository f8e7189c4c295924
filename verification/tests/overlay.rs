use stats_rs::draw::{DrawCommand, Rect};
use stats_rs::error::StatsError;
use stats_rs::{Environment, Stats, CONTAINER_STYLE, FPS_CEILING, MS_CEILING};

fn host(now: u64) -> Option<Environment> {
    Some(Environment { pixel_ratio: 1_000, now: Some(now), fps_surface: true, ms_surface: true })
}

fn overlay_at(now: u64) -> Stats {
    Stats::init(host(now)).expect("the host offers all that is needed").0
}

fn failure(environment: Option<Environment>) -> StatsError {
    match Stats::init(environment) {
        Err(error) => error,
        Ok(_) => panic!("an overlay was made"),
    }
}

#[test]
fn init_without_environment_fails() {
    assert_eq!(failure(None), StatsError::EnvironmentUnavailable);
}

#[test]
fn init_without_a_surface_fails() {
    let mut environment = host(0).expect("built above");
    environment.fps_surface = false;
    assert_eq!(failure(Some(environment)), StatsError::SurfaceUnavailable);
    let mut environment = host(0).expect("built above");
    environment.ms_surface = false;
    assert_eq!(failure(Some(environment)), StatsError::SurfaceUnavailable);
}

#[test]
fn init_without_clock_fails() {
    let mut environment = host(0).expect("built above");
    environment.now = None;
    assert_eq!(failure(Some(environment)), StatsError::EnvironmentUnavailable);
}

#[test]
fn missing_surface_is_reported_before_missing_clock() {
    let environment = Environment { pixel_ratio: 1_000, now: None, fps_surface: true, ms_surface: false };
    assert_eq!(failure(Some(environment)), StatsError::SurfaceUnavailable);
}

#[test]
fn init_makes_two_panels_and_a_monitor() {
    let (stats, frame) = Stats::init(host(5_000)).expect("the host offers all that is needed");
    assert_eq!(stats.fps_panel().label(), "FPS");
    assert_eq!(stats.fps_panel().foreground_color(), "#0ff");
    assert_eq!(stats.fps_panel().background_color(), "#002");
    assert_eq!(stats.ms_panel().label(), "MS");
    assert_eq!(stats.ms_panel().foreground_color(), "#0f0");
    assert_eq!(stats.ms_panel().background_color(), "#020");
    assert_eq!(stats.monitor().begin_time, 5_000);
    assert_eq!(stats.monitor().previous_time, 5_000);
    assert_eq!(stats.monitor().fps, 0);
    assert_eq!(stats.monitor().ms, 0);
    assert_eq!(stats.parent(), None);
    assert_eq!(frame.fps.len(), 12);
    assert_eq!(frame.ms.len(), 12);
    assert_eq!(frame.fps[4], DrawCommand::FillStyle { color: String::from("#002") });
    assert_eq!(frame.fps[7], DrawCommand::FillText { text: String::from("FPS"), x: 3_000, y: 2_000 });
    assert_eq!(frame.ms[4], DrawCommand::FillStyle { color: String::from("#020") });
    assert_eq!(frame.ms[7], DrawCommand::FillText { text: String::from("MS"), x: 3_000, y: 2_000 });
}

#[test]
fn init_uses_the_pixel_ratio_of_the_host() {
    let environment = Environment { pixel_ratio: 3_000, now: Some(0), fps_surface: true, ms_surface: true };
    let (stats, frame) = Stats::init(Some(environment)).expect("the host offers all that is needed");
    assert_eq!(stats.fps_panel().ratio(), 3_000);
    assert_eq!(stats.ms_panel().ratio(), 3_000);
    assert_eq!(frame.fps[0], DrawCommand::Resize { width: 240, height: 144 });
    assert_eq!(frame.ms[0], DrawCommand::Resize { width: 240, height: 144 });
}

#[test]
fn policy_constants() {
    assert_eq!(FPS_CEILING, 100);
    assert_eq!(MS_CEILING, 200);
    assert!(CONTAINER_STYLE.contains("position: fixed"));
    assert!(CONTAINER_STYLE.contains("opacity: 0.9"));
    assert!(CONTAINER_STYLE.contains("z-index: 999"));
}

#[test]
fn update_feeds_both_panels() {
    let mut stats = overlay_at(0);
    let frame = stats.update(50_000);
    assert_eq!(stats.monitor().ms, 50);
    assert_eq!(stats.monitor().fps, 0);
    assert_eq!(frame.fps[4], DrawCommand::FillText { text: String::from("0 FPS"), x: 3_000, y: 2_000 });
    assert_eq!(frame.ms[4], DrawCommand::FillText { text: String::from("50 MS"), x: 3_000, y: 2_000 });
    let column = |height: i64| DrawCommand::FillRect { area: Rect { x: 76_000, y: 15_000, width: 1_000, height } };
    assert_eq!(frame.fps[9], column(30_000));
    assert_eq!(frame.ms[9], column(22_500));
    assert_eq!(stats.fps_panel().history()[73], 30_000);
    assert_eq!(stats.ms_panel().history()[73], 22_500);
    let frame = stats.update(1_000_000);
    assert_eq!(stats.monitor().fps, 2);
    assert_eq!(stats.monitor().ms, 950);
    assert_eq!(frame.fps[4], DrawCommand::FillText { text: String::from("2 FPS"), x: 3_000, y: 2_000 });
    assert_eq!(frame.ms[4], DrawCommand::FillText { text: String::from("950 MS"), x: 3_000, y: 2_000 });
    assert_eq!(frame.fps[9], column(29_400));
    assert_eq!(frame.ms[9], column(-112_500));
}

#[test]
fn sixty_updates_in_a_second() {
    let mut stats = overlay_at(0);
    let mut now: u64 = 0;
    let mut last = None;
    for _ in 0..60 {
        now += 16_670;
        last = Some(stats.update(now));
    }
    assert_eq!(stats.monitor().fps, 59);
    assert_eq!(stats.monitor().ms, 16);
    let frame = last.expect("sixty frames were drawn");
    assert_eq!(frame.fps[4], DrawCommand::FillText { text: String::from("59 FPS"), x: 3_000, y: 2_000 });
    assert_eq!(frame.ms[4], DrawCommand::FillText { text: String::from("16 MS"), x: 3_000, y: 2_000 });
    assert_eq!(stats.fps_panel().history()[73], 12_300);
    assert_eq!(stats.fps_panel().history()[72], 30_000);
    assert_eq!(stats.ms_panel().history()[73], 27_600);
}

#[test]
fn attach_then_detach_leaves_the_overlay_as_it_was() {
    let mut stats = overlay_at(0);
    stats.update(20_000);
    let fps_before = stats.fps_panel().history();
    let ms_before = stats.ms_panel().history();
    assert_eq!(stats.attach(7, true), Ok(()));
    assert_eq!(stats.parent(), Some(7));
    assert_eq!(stats.detach(7), Ok(()));
    assert_eq!(stats.parent(), None);
    assert_eq!(stats.fps_panel().history(), fps_before);
    assert_eq!(stats.ms_panel().history(), ms_before);
    assert_eq!(stats.fps_panel().label(), "FPS");
    assert_eq!(stats.ms_panel().label(), "MS");
    assert_eq!(stats.monitor().begin_time, 20_000);
    assert_eq!(stats.monitor().frames, 1);
}

#[test]
fn detach_without_attach_is_refused() {
    let mut stats = overlay_at(0);
    stats.update(20_000);
    let fps_before = stats.fps_panel().history();
    let ms_before = stats.ms_panel().history();
    assert_eq!(stats.detach(7), Err(StatsError::NotAChild));
    assert_eq!(stats.parent(), None);
    assert_eq!(stats.fps_panel().history(), fps_before);
    assert_eq!(stats.ms_panel().history(), ms_before);
    assert_eq!(stats.monitor().begin_time, 20_000);
    assert_eq!(stats.monitor().previous_time, 0);
    assert_eq!(stats.monitor().frames, 1);
    assert_eq!(stats.monitor().ms, 20);
}

#[test]
fn detach_from_another_parent_is_refused() {
    let mut stats = overlay_at(0);
    assert_eq!(stats.attach(7, true), Ok(()));
    assert_eq!(stats.detach(8), Err(StatsError::NotAChild));
    assert_eq!(stats.parent(), Some(7));
    assert_eq!(stats.detach(7), Ok(()));
    assert_eq!(stats.detach(7), Err(StatsError::NotAChild));
}

#[test]
fn refused_attach_changes_nothing() {
    let mut stats = overlay_at(0);
    assert_eq!(stats.attach(7, false), Err(StatsError::ParentRejected));
    assert_eq!(stats.parent(), None);
    assert_eq!(stats.attach(7, true), Ok(()));
    assert_eq!(stats.attach(9, false), Err(StatsError::ParentRejected));
    assert_eq!(stats.parent(), Some(7));
}

#[test]
fn attach_moves_the_overlay_to_the_new_parent() {
    let mut stats = overlay_at(0);
    assert_eq!(stats.attach(7, true), Ok(()));
    assert_eq!(stats.attach(9, true), Ok(()));
    assert_eq!(stats.parent(), Some(9));
    assert_eq!(stats.detach(7), Err(StatsError::NotAChild));
    assert_eq!(stats.detach(9), Ok(()));
}

#[test]
fn update_goes_on_while_detached() {
    let mut attached = overlay_at(0);
    let mut detached = overlay_at(0);
    assert_eq!(attached.attach(1, true), Ok(()));
    let mut now: u64 = 0;
    for _ in 0..70 {
        now += 16_000;
        let seen = attached.update(now);
        let unseen = detached.update(now);
        assert_eq!(seen.fps, unseen.fps);
        assert_eq!(seen.ms, unseen.ms);
    }
    assert_eq!(attached.monitor().fps, detached.monitor().fps);
    assert_eq!(detached.monitor().fps, 62);
    assert_eq!(attached.parent(), Some(1));
    assert_eq!(detached.parent(), None);
}
