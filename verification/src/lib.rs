//! A performance overlay: frames per second and milliseconds per frame,
//! each shown as a scrolling bar graph on a small drawing surface.
//!
//! The crate holds the sampling arithmetic and the rendering decisions. It
//! never touches a clock or a surface itself: timestamps come in as integers,
//! and drawing goes out as a list of commands for the host to carry out.

use vstd::prelude::*;
use vstd::string::StringExecFns;
use crate::draw::{DrawCommand, ops};
use crate::error::StatsError;
use crate::monitor::{CanvasPerformance, MonitorState};
use crate::panel::{Panel, PanelView};

pub mod arith;
pub mod draw;
pub mod error;
pub mod monitor;
pub mod panel;
pub mod text;

verus! {

/// The value that fills the graph of frame rates from bottom to top.
pub const FPS_CEILING: u32 = 100;

/// The value that fills the graph of frame times from bottom to top.
pub const MS_CEILING: u32 = 200;

/// The style of the element that holds the two panels: fixed at the top left
/// corner, above the page, slightly transparent.
pub const CONTAINER_STYLE: &'static str =
    "position: fixed; top: 0; left: 0; cursor: pointer; opacity: 0.9; z-index: 999;";

/// What the host has to offer when an overlay is made.
#[derive(Clone, Copy, Debug)]
pub struct Environment {
    /// Device pixels per unit of length, in thousandths.
    pub pixel_ratio: u16,
    /// The reading of the host's clock, in ticks, if it has a clock.
    pub now: Option<u64>,
    /// Whether the host provided a surface for the panel of frame rates.
    pub fps_surface: bool,
    /// Whether the host provided a surface for the panel of frame times.
    pub ms_surface: bool,
}

/// The commands of one round of drawing, for each panel's surface.
#[derive(Debug)]
pub struct Frame {
    /// For the surface of the panel of frame rates.
    pub fps: Vec<DrawCommand>,
    /// For the surface of the panel of frame times.
    pub ms: Vec<DrawCommand>,
}

/// What an overlay is: its two panels, in their fixed order, its monitor,
/// and the host element that holds it, if one does.
pub struct StatsView {
    /// The panel of frame rates, the first of the two.
    pub fps: PanelView,
    /// The panel of frame times, the second of the two.
    pub ms: PanelView,
    /// The monitor.
    pub monitor: MonitorState,
    /// The host element that the overlay is a child of.
    pub parent: Option<u64>,
}

/// Why no overlay can be made in `environment`, if none can: the first
/// thing found missing, looking for the drawing environment, then for the
/// two surfaces, then for the clock.
pub open spec fn init_failure(environment: Option<Environment>) -> Option<StatsError> {
    match environment {
        None => Some(StatsError::EnvironmentUnavailable),
        Some(host) => if !host.fps_surface || !host.ms_surface {
            Some(StatsError::SurfaceUnavailable)
        } else if host.now is None {
            Some(StatsError::EnvironmentUnavailable)
        } else {
            None
        },
    }
}

impl StatsView {
    /// The overlay as it is made at the clock reading `now`: two fresh
    /// panels, a monitor whose window begins at `now`, and no parent.
    pub open spec fn initial(pixel_ratio: int, now: int) -> StatsView {
        StatsView {
            fps: PanelView::fresh("FPS"@, "#0ff"@, "#002"@, pixel_ratio),
            ms: PanelView::fresh("MS"@, "#0f0"@, "#020"@, pixel_ratio),
            monitor: MonitorState { begin_time: now, previous_time: now, frames: 0, fps: 0, ms: 0 },
            parent: None,
        }
    }

    /// The overlay after the frame at the clock reading `now`: the monitor
    /// has taken its sample, and each panel shows its figure.
    pub open spec fn updated(self, now: int) -> StatsView {
        let monitor = self.monitor.step(now);
        StatsView {
            fps: self.fps.pushed(monitor.fps as int, FPS_CEILING as int),
            ms: self.ms.pushed(monitor.ms as int, MS_CEILING as int),
            monitor,
            parent: self.parent,
        }
    }

    /// The overlay as a child of `parent`.
    pub open spec fn attached(self, parent: u64) -> StatsView {
        StatsView { parent: Some(parent), ..self }
    }

    /// The overlay as a child of no host element.
    pub open spec fn detached(self) -> StatsView {
        StatsView { parent: None, ..self }
    }
}

/// The overlay: two panels and the monitor that feeds them.
#[derive(Debug)]
pub struct Stats {
    fps: Panel,
    ms: Panel,
    monitor: CanvasPerformance,
    parent: Option<u64>,
}

impl View for Stats {
    type V = StatsView;

    closed spec fn view(&self) -> StatsView {
        StatsView { fps: self.fps@, ms: self.ms@, monitor: self.monitor@, parent: self.parent }
    }
}

impl Stats {
    /// Makes an overlay from what the host offers, with the commands that
    /// prepare the two surfaces. The overlay is not yet a child of any host
    /// element.
    pub fn init(environment: Option<Environment>) -> (made: Result<(Stats, Frame), StatsError>)
        ensures
            made is Err <==> init_failure(environment) is Some,
            made is Err ==> init_failure(environment) == Some(made->Err_0),
            made is Ok ==> made->Ok_0.0@ == StatsView::initial(
                environment->Some_0.pixel_ratio as int,
                environment->Some_0.now->Some_0 as int,
            ),
            made is Ok ==> ops(made->Ok_0.1.fps@) == made->Ok_0.0@.fps.setup_ops(),
            made is Ok ==> ops(made->Ok_0.1.ms@) == made->Ok_0.0@.ms.setup_ops(),
    {
        let host = match environment {
            None => {
                return Err(StatsError::EnvironmentUnavailable);
            },
            Some(host) => host,
        };
        let (fps, fps_setup) = match Panel::create(
            String::from_str("FPS"),
            String::from_str("#0ff"),
            String::from_str("#002"),
            host.pixel_ratio,
            host.fps_surface,
        ) {
            Err(error) => {
                return Err(error);
            },
            Ok(made) => made,
        };
        let (ms, ms_setup) = match Panel::create(
            String::from_str("MS"),
            String::from_str("#0f0"),
            String::from_str("#020"),
            host.pixel_ratio,
            host.ms_surface,
        ) {
            Err(error) => {
                return Err(error);
            },
            Ok(made) => made,
        };
        let monitor = match CanvasPerformance::init(host.now) {
            Err(_) => {
                return Err(StatsError::EnvironmentUnavailable);
            },
            Ok(monitor) => monitor,
        };
        Ok((Stats { fps, ms, monitor, parent: None }, Frame { fps: fps_setup, ms: ms_setup }))
    }

    /// Records the frame that ends at the clock reading `now`, and returns
    /// the commands that bring both panels up to date. To be called once for
    /// every frame, whether or not the overlay is a child of a host element.
    pub fn update(&mut self, now: u64) -> (frame: Frame)
        requires
            old(self)@.monitor.frames < u32::MAX,
        ensures
            final(self)@ == old(self)@.updated(now as int),
            ops(frame.fps@) == old(self)@.fps.update_ops(
                final(self)@.monitor.fps as int,
                FPS_CEILING as int,
            ),
            ops(frame.ms@) == old(self)@.ms.update_ops(final(self)@.monitor.ms as int, MS_CEILING as int),
    {
        self.monitor.recalculate(now);
        let fps = self.fps.update(self.monitor.fps, FPS_CEILING);
        let ms = self.ms.update(self.monitor.ms, MS_CEILING);
        Frame { fps, ms }
    }

    /// Records what came of asking the host to take the overlay as the last
    /// child of `parent`: `accepted` says whether the host did.
    pub fn attach(&mut self, parent: u64, accepted: bool) -> (done: Result<(), StatsError>)
        ensures
            accepted <==> done is Ok,
            done is Err ==> done->Err_0 == StatsError::ParentRejected,
            done is Ok ==> final(self)@ == old(self)@.attached(parent),
            done is Err ==> final(self)@ == old(self)@,
    {
        if accepted {
            self.parent = Some(parent);
            Ok(())
        } else {
            Err(StatsError::ParentRejected)
        }
    }

    /// Takes the overlay out of `parent`, which must be the host element
    /// that holds it; otherwise nothing changes.
    pub fn detach(&mut self, parent: u64) -> (done: Result<(), StatsError>)
        ensures
            old(self)@.parent == Some(parent) <==> done is Ok,
            done is Err ==> done->Err_0 == StatsError::NotAChild,
            done is Ok ==> final(self)@ == old(self)@.detached(),
            done is Err ==> final(self)@ == old(self)@,
    {
        let held: bool = match self.parent {
            Some(current) => current == parent,
            None => false,
        };
        if held {
            self.parent = None;
            Ok(())
        } else {
            Err(StatsError::NotAChild)
        }
    }

    /// The monitor.
    pub fn monitor(&self) -> (monitor: &CanvasPerformance)
        ensures
            monitor@ == self@.monitor,
    {
        &self.monitor
    }

    /// The panel of frame rates.
    pub fn fps_panel(&self) -> (panel: &Panel)
        ensures
            panel@ == self@.fps,
    {
        &self.fps
    }

    /// The panel of frame times.
    pub fn ms_panel(&self) -> (panel: &Panel)
        ensures
            panel@ == self@.ms,
    {
        &self.ms
    }

    /// The host element that the overlay is a child of, if any.
    pub fn parent(&self) -> (parent: Option<u64>)
        ensures
            parent == self@.parent,
    {
        self.parent
    }
}

/// Attaching an overlay to a host element and detaching it from the same
/// element at once succeeds, and leaves the overlay a child of no element,
/// with its two panels and its monitor as they were. An overlay that had no
/// parent before is then exactly what it was.
pub proof fn lemma_attach_then_detach(overlay: StatsView, parent: u64)
    ensures
        overlay.attached(parent).parent == Some(parent),
        overlay.attached(parent).detached().parent is None,
        overlay.attached(parent).detached().fps == overlay.fps,
        overlay.attached(parent).detached().ms == overlay.ms,
        overlay.attached(parent).detached().monitor == overlay.monitor,
        overlay.parent is None ==> overlay.attached(parent).detached() == overlay,
{
}

/// An overlay that was made and has since only been updated is a child of
/// no host element, so that every attempt to detach it is refused.
pub proof fn lemma_never_attached(pixel_ratio: int, now: int, times: Seq<int>, parent: u64)
    ensures
        run_updates(StatsView::initial(pixel_ratio, now), times).parent != Some(parent),
    decreases times.len(),
{
    if times.len() > 0 {
        lemma_never_attached(pixel_ratio, now, times.drop_last(), parent);
    }
}

/// A frame is recorded and drawn alike whether or not the overlay is a
/// child of a host element, and leaves the overlay where it was.
pub proof fn lemma_update_ignores_attachment(overlay: StatsView, parent: u64, now: int)
    ensures
        overlay.attached(parent).updated(now) == overlay.updated(now).attached(parent),
        overlay.detached().updated(now) == overlay.updated(now).detached(),
        overlay.updated(now).parent == overlay.parent,
{
}

/// The overlay after one frame at each of `times`, in order.
pub open spec fn run_updates(overlay: StatsView, times: Seq<int>) -> StatsView
    decreases times.len(),
{
    if times.len() == 0 {
        overlay
    } else {
        run_updates(overlay, times.drop_last()).updated(times.last())
    }
}

/// Through any run of frames the monitor of the overlay goes as a monitor
/// alone would, sample by sample.
pub proof fn lemma_overlay_follows_monitor(overlay: StatsView, times: Seq<int>)
    ensures
        run_updates(overlay, times).monitor == overlay.monitor.run(times),
    decreases times.len(),
{
    if times.len() > 0 {
        lemma_overlay_follows_monitor(overlay, times.drop_last());
    }
}

} // verus!
