//! One panel: a label with the current value above a scrolling bar graph.
//!
//! A panel never draws. It works out what is to be drawn and hands the
//! commands to its caller, and it keeps the heights of the columns that its
//! surface shows, oldest first.

use vstd::prelude::*;
use vstd::string::StringExecFns;
use crate::arith::lemma_floor_quotient;
use crate::draw::{Area, DrawCommand, DrawOp, Rect, ops};
use crate::error::StatsError;
use crate::text::{decimal, push_decimal};

verus! {

/// Width of a panel, in units of the pixel ratio.
pub const PANEL_WIDTH: i64 = 80;

/// Height of a panel, in units of the pixel ratio.
pub const PANEL_HEIGHT: i64 = 48;

/// Left edge of the text.
pub const TEXT_X: i64 = 3;

/// Top edge of the text.
pub const TEXT_Y: i64 = 2;

/// Left edge of the graph.
pub const GRAPH_X: i64 = 3;

/// Top edge of the graph, and height of the band of text above it.
pub const GRAPH_Y: i64 = 15;

/// Width of the graph.
pub const GRAPH_WIDTH: i64 = 74;

/// Height of the graph.
pub const GRAPH_HEIGHT: i64 = 30;

/// Size of the font.
pub const FONT_SIZE: i64 = 9;

/// Columns in the graph, each one unit wide.
pub const COLUMNS: usize = 74;

/// Opacity of the background where it covers the graph, in thousandths.
pub const VEIL_ALPHA: u32 = 900;

/// Full opacity, in thousandths.
pub const FULL_ALPHA: u32 = 1_000;

/// Device pixels of a surface edge of `units` units: the nearest whole
/// number, a half rounding up.
pub open spec fn surface_pixels(units: int, ratio: int) -> int {
    (units * ratio + 500) / 1_000
}

/// Size of the font in whole pixels, rounded down.
pub open spec fn font_pixels(ratio: int) -> int {
    FONT_SIZE * ratio / 1_000
}

/// The style text that shows a surface at half its size in device pixels.
pub open spec fn style_text(width: int, height: int) -> Seq<char> {
    "width: "@ + decimal((width / 2) as nat) + "px; height: "@ + decimal((height / 2) as nat) + "px"@
}

/// The font of a panel.
pub open spec fn font_text(ratio: int) -> Seq<char> {
    "bold "@ + decimal(font_pixels(ratio) as nat) + "px Helvetica,Arial,sans-serif"@
}

/// The text of a panel that shows `value`.
pub open spec fn value_text(value: int, label: Seq<char>) -> Seq<char> {
    decimal(value as nat) + " "@ + label
}

/// Height of the stretch above a bar, from the top of the graph down to the
/// bar: the share of the graph's height that `value` leaves of `max_value`,
/// rounded towards zero. It is negative where the value exceeds the ceiling.
pub open spec fn blank_height(ratio: int, value: int, max_value: int) -> int
    recommends
        max_value > 0,
{
    if value <= max_value {
        GRAPH_HEIGHT * ratio * (max_value - value) / max_value
    } else {
        -(GRAPH_HEIGHT * ratio * (value - max_value) / max_value)
    }
}

/// The whole surface.
pub open spec fn whole_area(ratio: int) -> Area {
    Area { x: 0, y: 0, width: PANEL_WIDTH * ratio, height: PANEL_HEIGHT * ratio }
}

/// The band of text across the top.
pub open spec fn text_area(ratio: int) -> Area {
    Area { x: 0, y: 0, width: PANEL_WIDTH * ratio, height: GRAPH_Y * ratio }
}

/// The graph.
pub open spec fn graph_area(ratio: int) -> Area {
    Area { x: GRAPH_X * ratio, y: GRAPH_Y * ratio, width: GRAPH_WIDTH * ratio, height: GRAPH_HEIGHT * ratio }
}

/// The graph without its oldest column.
pub open spec fn kept_area(ratio: int) -> Area {
    Area {
        x: GRAPH_X * ratio + ratio,
        y: GRAPH_Y * ratio,
        width: GRAPH_WIDTH * ratio - ratio,
        height: GRAPH_HEIGHT * ratio,
    }
}

/// Where the kept columns go: one column to the left.
pub open spec fn moved_area(ratio: int) -> Area {
    Area { x: GRAPH_X * ratio, ..kept_area(ratio) }
}

/// The newest column, at the right edge of the graph.
pub open spec fn newest_area(ratio: int) -> Area {
    Area {
        x: GRAPH_X * ratio + GRAPH_WIDTH * ratio - ratio,
        y: GRAPH_Y * ratio,
        width: ratio,
        height: GRAPH_HEIGHT * ratio,
    }
}

/// The stretch of the newest column above the bar for `value`.
pub open spec fn blank_area(ratio: int, value: int, max_value: int) -> Area {
    Area { height: blank_height(ratio, value, max_value), ..newest_area(ratio) }
}

/// What a panel is: its fixed style, and the graph that its surface shows.
pub struct PanelView {
    /// Device pixels per unit, in thousandths.
    pub ratio: int,
    /// The name of the figure shown.
    pub label: Seq<char>,
    /// Colour of text and bars.
    pub foreground_color: Seq<char>,
    /// Colour of everything else.
    pub background_color: Seq<char>,
    /// The blank height of each column of the graph, oldest first.
    pub history: Seq<int>,
}

impl PanelView {
    /// The panel as it is made: every column blank from top to bottom.
    pub open spec fn fresh(
        label: Seq<char>,
        foreground_color: Seq<char>,
        background_color: Seq<char>,
        ratio: int,
    ) -> PanelView {
        PanelView {
            ratio,
            label,
            foreground_color,
            background_color,
            history: Seq::new(COLUMNS as nat, |i: int| GRAPH_HEIGHT * ratio),
        }
    }

    /// The panel after `value` was pushed: the oldest column gone, the others
    /// one place older, and the bar for `value` newest.
    pub open spec fn pushed(self, value: int, max_value: int) -> PanelView {
        PanelView {
            history: self.history.drop_first().push(blank_height(self.ratio, value, max_value)),
            ..self
        }
    }

    /// The commands that prepare the surface: its size and style, the font,
    /// the background, the label, and a graph veiled from side to side.
    pub open spec fn setup_ops(self) -> Seq<DrawOp> {
        let width = surface_pixels(PANEL_WIDTH as int, self.ratio);
        let height = surface_pixels(PANEL_HEIGHT as int, self.ratio);
        seq![
            DrawOp::Resize { width, height },
            DrawOp::Style { css: style_text(width, height) },
            DrawOp::Font { font: font_text(self.ratio) },
            DrawOp::TextBaseline { baseline: "top"@ },
            DrawOp::FillStyle { color: self.background_color },
            DrawOp::FillRect { area: whole_area(self.ratio) },
            DrawOp::FillStyle { color: self.foreground_color },
            DrawOp::FillText { text: self.label, x: TEXT_X * self.ratio, y: TEXT_Y * self.ratio },
            DrawOp::FillRect { area: graph_area(self.ratio) },
            DrawOp::FillStyle { color: self.background_color },
            DrawOp::GlobalAlpha { permille: VEIL_ALPHA as int },
            DrawOp::FillRect { area: graph_area(self.ratio) },
        ]
    }

    /// The commands that show `value`: the text band cleared and written
    /// anew, the graph moved one column to the left by a copy onto itself,
    /// and the newest column filled and then veiled down to the bar.
    pub open spec fn update_ops(self, value: int, max_value: int) -> Seq<DrawOp> {
        seq![
            DrawOp::FillStyle { color: self.background_color },
            DrawOp::GlobalAlpha { permille: FULL_ALPHA as int },
            DrawOp::FillRect { area: text_area(self.ratio) },
            DrawOp::FillStyle { color: self.foreground_color },
            DrawOp::FillText {
                text: value_text(value, self.label),
                x: TEXT_X * self.ratio,
                y: TEXT_Y * self.ratio,
            },
            DrawOp::CopyRect { source: kept_area(self.ratio), target: moved_area(self.ratio) },
            DrawOp::FillRect { area: newest_area(self.ratio) },
            DrawOp::FillStyle { color: self.background_color },
            DrawOp::GlobalAlpha { permille: VEIL_ALPHA as int },
            DrawOp::FillRect { area: blank_area(self.ratio, value, max_value) },
        ]
    }
}

/// A labelled bar graph of one figure, of fixed size.
#[derive(Debug)]
pub struct Panel {
    ratio: u16,
    label: String,
    foreground_color: String,
    background_color: String,
    /// Blank heights of the columns, as a ring: the oldest is at `oldest`.
    columns: Vec<i64>,
    oldest: usize,
}

impl View for Panel {
    type V = PanelView;

    closed spec fn view(&self) -> PanelView {
        PanelView {
            ratio: self.ratio as int,
            label: self.label@,
            foreground_color: self.foreground_color@,
            background_color: self.background_color@,
            history: Seq::new(
                COLUMNS as nat,
                |i: int| self.columns@[(self.oldest + i) % (COLUMNS as int)] as int,
            ),
        }
    }
}

impl Panel {
    #[verifier::type_invariant]
    spec fn well_formed(self) -> bool {
        self.columns@.len() == COLUMNS && self.oldest < COLUMNS
    }

    /// Makes a panel for a host whose pixel ratio is `ratio` thousandths, and
    /// the commands that prepare its surface. `surface` says whether the host
    /// could provide that surface; without one there is no panel.
    pub fn create(
        label: String,
        foreground_color: String,
        background_color: String,
        ratio: u16,
        surface: bool,
    ) -> (made: Result<(Panel, Vec<DrawCommand>), StatsError>)
        ensures
            surface <==> made is Ok,
            made is Err ==> made->Err_0 == StatsError::SurfaceUnavailable,
            made is Ok ==> made->Ok_0.0@ == PanelView::fresh(
                label@,
                foreground_color@,
                background_color@,
                ratio as int,
            ),
            made is Ok ==> ops(made->Ok_0.1@) == made->Ok_0.0@.setup_ops(),
    {
        if !surface {
            return Err(StatsError::SurfaceUnavailable);
        }
        let full: i64 = scaled(GRAPH_HEIGHT, ratio);
        let mut columns: Vec<i64> = Vec::new();
        while columns.len() < COLUMNS
            invariant
                columns@.len() <= COLUMNS,
                forall|i: int| 0 <= i < columns@.len() ==> columns@[i] == full,
            decreases COLUMNS - columns@.len(),
        {
            columns.push(full);
        }
        let panel = Panel { ratio, label, foreground_color, background_color, columns, oldest: 0 };
        assert(panel@.history =~= PanelView::fresh(
            label@,
            foreground_color@,
            background_color@,
            ratio as int,
        ).history);
        let commands = panel.setup_commands();
        Ok((panel, commands))
    }

    /// Shows `value` on a graph whose full height stands for `max_value`:
    /// records the new column and returns the commands that draw it.
    pub fn update(&mut self, value: u32, max_value: u32) -> (commands: Vec<DrawCommand>)
        requires
            max_value > 0,
        ensures
            final(self)@ == old(self)@.pushed(value as int, max_value as int),
            ops(commands@) == old(self)@.update_ops(value as int, max_value as int),
    {
        proof {
            use_type_invariant(&*self);
        }
        let commands = self.update_commands(value, max_value);
        let blank: i64 = bar_blank(self.ratio, value, max_value);
        let at: usize = self.oldest;
        self.columns[at] = blank;
        self.oldest = if at + 1 == COLUMNS {
            0
        } else {
            at + 1
        };
        assert(self@.history =~= old(self)@.pushed(value as int, max_value as int).history);
        commands
    }

    /// Device pixels per unit, in thousandths.
    pub fn ratio(&self) -> (ratio: u16)
        ensures
            ratio == self@.ratio,
    {
        self.ratio
    }

    /// The name of the figure shown.
    pub fn label(&self) -> (label: &String)
        ensures
            label@ == self@.label,
    {
        &self.label
    }

    /// Colour of text and bars.
    pub fn foreground_color(&self) -> (color: &String)
        ensures
            color@ == self@.foreground_color,
    {
        &self.foreground_color
    }

    /// Colour of everything else.
    pub fn background_color(&self) -> (color: &String)
        ensures
            color@ == self@.background_color,
    {
        &self.background_color
    }

    /// The blank height of each column of the graph, oldest first.
    pub fn history(&self) -> (heights: Vec<i64>)
        ensures
            heights@.len() == COLUMNS,
            heights@.map_values(|height: i64| height as int) == self@.history,
    {
        proof {
            use_type_invariant(self);
        }
        let mut heights: Vec<i64> = Vec::new();
        let mut at: usize = self.oldest;
        while heights.len() < COLUMNS
            invariant
                self.columns@.len() == COLUMNS,
                self.oldest < COLUMNS,
                heights@.len() <= COLUMNS,
                at < COLUMNS,
                at == (self.oldest + heights@.len()) % (COLUMNS as int),
                forall|i: int| 0 <= i < heights@.len() ==> heights@[i] == self@.history[i],
            decreases COLUMNS - heights@.len(),
        {
            heights.push(self.columns[at]);
            at = if at + 1 == COLUMNS {
                0
            } else {
                at + 1
            };
        }
        assert(heights@.map_values(|height: i64| height as int) =~= self@.history);
        heights
    }

    /// The commands that prepare the surface.
    fn setup_commands(&self) -> (commands: Vec<DrawCommand>)
        ensures
            ops(commands@) == self@.setup_ops(),
    {
        let width: u32 = pixels(PANEL_WIDTH, self.ratio);
        let height: u32 = pixels(PANEL_HEIGHT, self.ratio);
        let mut css = String::from_str("width: ");
        push_decimal(&mut css, width / 2);
        css.append("px; height: ");
        push_decimal(&mut css, height / 2);
        css.append("px");
        assert(css@ =~= style_text(width as int, height as int));
        let size: u32 = (scaled(FONT_SIZE, self.ratio) / 1_000) as u32;
        let mut font = String::from_str("bold ");
        push_decimal(&mut font, size);
        font.append("px Helvetica,Arial,sans-serif");
        assert(font@ =~= font_text(self.ratio as int));
        let whole = Rect {
            x: 0,
            y: 0,
            width: scaled(PANEL_WIDTH, self.ratio),
            height: scaled(PANEL_HEIGHT, self.ratio),
        };
        let graph = Rect {
            x: scaled(GRAPH_X, self.ratio),
            y: scaled(GRAPH_Y, self.ratio),
            width: scaled(GRAPH_WIDTH, self.ratio),
            height: scaled(GRAPH_HEIGHT, self.ratio),
        };
        let mut commands: Vec<DrawCommand> = Vec::new();
        commands.push(DrawCommand::Resize { width, height });
        commands.push(DrawCommand::Style { css });
        commands.push(DrawCommand::Font { font });
        commands.push(DrawCommand::TextBaseline { baseline: String::from_str("top") });
        commands.push(DrawCommand::FillStyle { color: self.background_color.clone() });
        commands.push(DrawCommand::FillRect { area: whole });
        commands.push(DrawCommand::FillStyle { color: self.foreground_color.clone() });
        commands.push(
            DrawCommand::FillText {
                text: self.label.clone(),
                x: scaled(TEXT_X, self.ratio),
                y: scaled(TEXT_Y, self.ratio),
            },
        );
        commands.push(DrawCommand::FillRect { area: graph });
        commands.push(DrawCommand::FillStyle { color: self.background_color.clone() });
        commands.push(DrawCommand::GlobalAlpha { permille: VEIL_ALPHA });
        commands.push(DrawCommand::FillRect { area: graph });
        assert(ops(commands@) =~= self@.setup_ops());
        commands
    }

    /// The commands that show `value`.
    fn update_commands(&self, value: u32, max_value: u32) -> (commands: Vec<DrawCommand>)
        requires
            max_value > 0,
        ensures
            ops(commands@) == self@.update_ops(value as int, max_value as int),
    {
        let unit: i64 = scaled(1, self.ratio);
        let top: i64 = scaled(GRAPH_Y, self.ratio);
        let left: i64 = scaled(GRAPH_X, self.ratio);
        let across: i64 = scaled(GRAPH_WIDTH, self.ratio);
        let down: i64 = scaled(GRAPH_HEIGHT, self.ratio);
        let mut text = String::new();
        push_decimal(&mut text, value);
        text.append(" ");
        text.append(self.label.as_str());
        assert(text@ =~= value_text(value as int, self.label@));
        let band = Rect { x: 0, y: 0, width: scaled(PANEL_WIDTH, self.ratio), height: top };
        let kept = Rect { x: left + unit, y: top, width: across - unit, height: down };
        let moved = Rect { x: left, y: top, width: across - unit, height: down };
        let newest = Rect { x: left + across - unit, y: top, width: unit, height: down };
        let blank = Rect {
            x: left + across - unit,
            y: top,
            width: unit,
            height: bar_blank(self.ratio, value, max_value),
        };
        let mut commands: Vec<DrawCommand> = Vec::new();
        commands.push(DrawCommand::FillStyle { color: self.background_color.clone() });
        commands.push(DrawCommand::GlobalAlpha { permille: FULL_ALPHA });
        commands.push(DrawCommand::FillRect { area: band });
        commands.push(DrawCommand::FillStyle { color: self.foreground_color.clone() });
        commands.push(
            DrawCommand::FillText {
                text,
                x: scaled(TEXT_X, self.ratio),
                y: scaled(TEXT_Y, self.ratio),
            },
        );
        commands.push(DrawCommand::CopyRect { source: kept, target: moved });
        commands.push(DrawCommand::FillRect { area: newest });
        commands.push(DrawCommand::FillStyle { color: self.background_color.clone() });
        commands.push(DrawCommand::GlobalAlpha { permille: VEIL_ALPHA });
        commands.push(DrawCommand::FillRect { area: blank });
        assert(ops(commands@) =~= self@.update_ops(value as int, max_value as int));
        commands
    }
}

/// `units` units at `ratio`, in millipixels.
fn scaled(units: i64, ratio: u16) -> (length: i64)
    requires
        0 <= units <= 100,
    ensures
        length == units * ratio,
        0 <= length <= 100 * 65_535,
{
    assert(0 <= units * ratio <= 100 * 65_535) by (nonlinear_arith)
        requires
            0 <= units <= 100,
            0 <= ratio <= 65_535,
    ;
    units * (ratio as i64)
}

/// Device pixels of a surface edge of `units` units.
fn pixels(units: i64, ratio: u16) -> (count: u32)
    requires
        0 <= units <= 100,
    ensures
        count == surface_pixels(units as int, ratio as int),
{
    let length: i64 = scaled(units, ratio) + 500;
    (length / 1_000) as u32
}

/// `length * part / whole`, rounded down.
fn share(length: i64, part: u32, whole: u32) -> (result: i64)
    requires
        0 <= length <= 30 * 65_535,
        whole > 0,
    ensures
        result == length * part / (whole as int),
        result >= 0,
{
    assert(0 <= length * part <= 30 * 65_535 * 0xffff_ffff) by (nonlinear_arith)
        requires
            0 <= length <= 30 * 65_535,
            0 <= part <= 0xffff_ffff,
    ;
    let product: i64 = length * (part as i64);
    assert(0 <= (product as int) / (whole as int) <= product) by (nonlinear_arith)
        requires
            product >= 0,
            whole > 0,
    ;
    product / (whole as i64)
}

/// The height of the stretch above the bar for `value`.
pub fn bar_blank(ratio: u16, value: u32, max_value: u32) -> (height: i64)
    requires
        max_value > 0,
    ensures
        height == blank_height(ratio as int, value as int, max_value as int),
{
    let full: i64 = scaled(GRAPH_HEIGHT, ratio);
    if value <= max_value {
        share(full, max_value - value, max_value)
    } else {
        -share(full, value - max_value, max_value)
    }
}

/// The graph of a panel always has the same number of columns.
pub proof fn lemma_history_length(panel: &Panel)
    ensures
        panel@.history.len() == COLUMNS,
{
}

/// After a push the newest column is the bar of the value pushed, every
/// other column has moved one place towards the oldest, and nothing else
/// about the panel has changed: not its size, its label or its colours.
pub proof fn lemma_newest_column_shows_value(panel: PanelView, value: int, max_value: int)
    requires
        panel.history.len() == COLUMNS,
    ensures
        panel.pushed(value, max_value).history.len() == COLUMNS,
        panel.pushed(value, max_value).history.last() == blank_height(panel.ratio, value, max_value),
        forall|i: int|
            0 <= i < COLUMNS - 1 ==> panel.pushed(value, max_value).history[i] == panel.history[i + 1],
        panel.pushed(value, max_value).ratio == panel.ratio,
        panel.pushed(value, max_value).label == panel.label,
        panel.pushed(value, max_value).foreground_color == panel.foreground_color,
        panel.pushed(value, max_value).background_color == panel.background_color,
        panel.update_ops(value, max_value).last() == (DrawOp::FillRect {
            area: Area { height: panel.pushed(value, max_value).history.last(), ..newest_area(panel.ratio) },
        }),
{
}

/// A fresh panel shows what its history says: the one veil drawn over the
/// whole graph is as tall as the blank stretch recorded for every column.
pub proof fn lemma_fresh_graph_is_blank(
    label: Seq<char>,
    foreground_color: Seq<char>,
    background_color: Seq<char>,
    ratio: int,
)
    ensures
        ({
            let panel = PanelView::fresh(label, foreground_color, background_color, ratio);
            &&& panel.history.len() == COLUMNS
            &&& forall|i: int| 0 <= i < COLUMNS ==> panel.history[i] == graph_area(ratio).height
            &&& forall|i: int| 0 <= i < COLUMNS ==> panel.history[i] == blank_height(ratio, 0, 1)
            &&& panel.setup_ops().last() == DrawOp::FillRect { area: graph_area(ratio) }
        }),
{
}

/// The graph lies inside the surface, below the band of text. Its columns,
/// one unit wide each, fill it from side to side. The copy that scrolls it
/// takes all columns but the oldest one column to the left, and so frees
/// exactly the place of the newest.
pub proof fn lemma_graph_geometry(ratio: int)
    requires
        ratio >= 0,
    ensures
        text_area(ratio).y + text_area(ratio).height == graph_area(ratio).y,
        0 <= graph_area(ratio).x,
        graph_area(ratio).x + graph_area(ratio).width <= whole_area(ratio).width,
        graph_area(ratio).y + graph_area(ratio).height <= whole_area(ratio).height,
        COLUMNS * ratio == graph_area(ratio).width,
        kept_area(ratio).x == graph_area(ratio).x + ratio,
        kept_area(ratio).x + kept_area(ratio).width == graph_area(ratio).x + graph_area(ratio).width,
        moved_area(ratio).x == kept_area(ratio).x - ratio,
        moved_area(ratio).width == kept_area(ratio).width,
        moved_area(ratio).x + moved_area(ratio).width == newest_area(ratio).x,
        newest_area(ratio).x + newest_area(ratio).width == graph_area(ratio).x + graph_area(ratio).width,
        newest_area(ratio).width == ratio,
        newest_area(ratio).y == graph_area(ratio).y,
        newest_area(ratio).height == graph_area(ratio).height,
{
}

/// The surface has the whole number of device pixels that is nearest to its
/// exact size: never more than half a pixel off.
pub proof fn lemma_surface_pixels_nearest(units: int, ratio: int)
    requires
        units >= 0,
        ratio >= 0,
    ensures
        units * ratio - 500 < surface_pixels(units, ratio) * 1_000 <= units * ratio + 500,
{
    assert(units * ratio >= 0) by (nonlinear_arith)
        requires
            units >= 0,
            ratio >= 0,
    ;
    lemma_floor_quotient(units * ratio + 500, 1_000);
}

/// Pushing the same value again draws the same again: the commands of the
/// second push are those of the first, and the two newest columns are alike.
pub proof fn lemma_same_value_same_column(panel: PanelView, value: int, max_value: int)
    requires
        panel.history.len() == COLUMNS,
    ensures
        panel.pushed(value, max_value).update_ops(value, max_value) == panel.update_ops(value, max_value),
        panel.pushed(value, max_value).pushed(value, max_value).history[COLUMNS - 1]
            == panel.pushed(value, max_value).history[COLUMNS - 1],
        panel.pushed(value, max_value).pushed(value, max_value).history[COLUMNS - 2]
            == panel.pushed(value, max_value).pushed(value, max_value).history[COLUMNS - 1],
{
}

/// A value within the ceiling leaves a blank stretch inside the graph: the
/// whole height for zero, nothing at the ceiling. A value beyond the ceiling
/// never leaves a stretch below the top of the graph.
pub proof fn lemma_blank_height_range(ratio: int, value: int, max_value: int)
    requires
        ratio >= 0,
        value >= 0,
        max_value > 0,
    ensures
        value <= max_value ==> 0 <= blank_height(ratio, value, max_value) <= GRAPH_HEIGHT * ratio,
        value == 0 ==> blank_height(ratio, value, max_value) == GRAPH_HEIGHT * ratio,
        value == max_value ==> blank_height(ratio, value, max_value) == 0,
        value > max_value ==> blank_height(ratio, value, max_value) <= 0,
{
    let full: int = GRAPH_HEIGHT * ratio;
    if value <= max_value {
        let rest: int = max_value - value;
        assert(0 <= full * rest <= full * max_value) by (nonlinear_arith)
            requires
                full >= 0,
                0 <= rest <= max_value,
        ;
        vstd::arithmetic::div_mod::lemma_div_is_ordered(full * rest, full * max_value, max_value);
        vstd::arithmetic::div_mod::lemma_div_multiples_vanish(full, max_value);
        vstd::arithmetic::div_mod::lemma_div_pos_is_pos(full * rest, max_value);
        assert(full * max_value == max_value * full) by (nonlinear_arith);
        if value == max_value {
            assert(full * rest == 0) by (nonlinear_arith)
                requires
                    rest == 0,
            ;
        }
    } else {
        let excess: int = value - max_value;
        assert(0 <= full * excess) by (nonlinear_arith)
            requires
                full >= 0,
                excess >= 0,
        ;
        vstd::arithmetic::div_mod::lemma_div_pos_is_pos(full * excess, max_value);
    }
}

/// The bar, from the bottom of the graph up to the blank stretch, has the
/// share of the graph's height that the value has of the ceiling, to within
/// one millipixel: rounded up below the ceiling, and down above it.
pub proof fn lemma_bar_height(ratio: int, value: int, max_value: int)
    requires
        ratio >= 0,
        value >= 0,
        max_value > 0,
    ensures
        ({
            let full = GRAPH_HEIGHT * ratio;
            let bar = full - blank_height(ratio, value, max_value);
            &&& value <= max_value ==> (bar - 1) * max_value < full * value <= bar * max_value
            &&& value > max_value ==> bar * max_value <= full * value < (bar + 1) * max_value
        }),
{
    let full: int = GRAPH_HEIGHT * ratio;
    let bar: int = full - blank_height(ratio, value, max_value);
    if value <= max_value {
        let rest: int = max_value - value;
        let blank: int = full * rest / max_value;
        assert(0 <= full * rest) by (nonlinear_arith)
            requires
                full >= 0,
                rest >= 0,
        ;
        lemma_floor_quotient(full * rest, max_value);
        assert(bar * max_value == full * max_value - blank * max_value) by (nonlinear_arith)
            requires
                bar == full - blank,
        ;
        assert(full * rest == full * max_value - full * value) by (nonlinear_arith)
            requires
                rest == max_value - value,
        ;
        assert((bar - 1) * max_value == bar * max_value - max_value) by (nonlinear_arith);
        assert((blank + 1) * max_value == blank * max_value + max_value) by (nonlinear_arith);
    } else {
        let excess: int = value - max_value;
        let over: int = full * excess / max_value;
        assert(0 <= full * excess) by (nonlinear_arith)
            requires
                full >= 0,
                excess >= 0,
        ;
        lemma_floor_quotient(full * excess, max_value);
        assert(bar * max_value == full * max_value + over * max_value) by (nonlinear_arith)
            requires
                bar == full + over,
        ;
        assert(full * excess == full * value - full * max_value) by (nonlinear_arith)
            requires
                excess == value - max_value,
        ;
        assert((bar + 1) * max_value == bar * max_value + max_value) by (nonlinear_arith);
        assert((over + 1) * max_value == over * max_value + max_value) by (nonlinear_arith);
    }
}

} // verus!
