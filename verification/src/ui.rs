//! What the screen is made of: which rows it has, where the widgets go and
//! how large they are. Drawing itself is left to whoever owns the terminal.

use vstd::prelude::*;
use crate::config::schema::WidgetPosition;
use crate::greeter::state::{Greeter, GreeterView, Mode};
use crate::text::str_eq;

verus! {

/// The buttons of the status bar.
#[derive(Debug, Clone, Copy, PartialEq, Eq, Structural)]
pub enum Button {
    Command,
    Session,
    Power,
    Other,
}

/// The mode that a button of the status bar opens, if it opens one.
pub open spec fn button_mode(button: Button) -> Option<Mode> {
    match button {
        Button::Command => Some(Mode::Command),
        Button::Session => Some(Mode::Sessions),
        Button::Power => Some(Mode::Power),
        Button::Other => None,
    }
}

/// Whether a button of the status bar is drawn as pressed: it is when the
/// menu it opens is on screen.
pub fn button_is_active(mode: Mode, button: Button) -> (active: bool)
    ensures
        active == (button_mode(button) == Some(mode)),
{
    match button {
        Button::Command => mode == Mode::Command,
        Button::Session => mode == Mode::Sessions,
        Button::Power => mode == Mode::Power,
        Button::Other => false,
    }
}

/// The position that the configuration in force gives a widget. Only the
/// clock, `time`, and the status bar, `status`, can be placed.
pub open spec fn widget_position_of(g: GreeterView, widget_name: Seq<char>) -> WidgetPosition {
    match g.loaded_config {
        Some(config) => {
            if widget_name == "time"@ {
                config.layout.widgets.time_position
            } else if widget_name == "status"@ {
                config.layout.widgets.status_position
            } else {
                WidgetPosition::Default
            }
        },
        None => WidgetPosition::Default,
    }
}

/// Get widget position from config.
pub fn get_widget_position(greeter: &Greeter, widget_name: &str) -> (position: WidgetPosition)
    ensures
        position == widget_position_of(greeter@, widget_name@),
{
    match &greeter.loaded_config {
        Some(config) => {
            if str_eq(widget_name, "time") {
                config.layout.widgets.time_position
            } else if str_eq(widget_name, "status") {
                config.layout.widgets.status_position
            } else {
                WidgetPosition::Default
            }
        },
        None => WidgetPosition::Default,
    }
}

/// How much room a row of the screen asks for.
#[derive(Debug, Clone, Copy, PartialEq, Eq, Structural)]
pub enum Row {
    /// Exactly so many lines
    Length(u16),
    /// At least so many lines, and whatever is left over
    Min(u16),
}

/// The rows of the screen from top to bottom, and which of them hold the
/// clock, the status bar and the main content.
#[derive(Debug, Clone)]
pub struct LayoutPlan {
    pub rows: Vec<Row>,
    pub time_slot: Option<usize>,
    pub status_slot: Option<usize>,
    pub main_slot: usize,
}

pub struct LayoutPlanView {
    pub rows: Seq<Row>,
    pub time_slot: Option<usize>,
    pub status_slot: Option<usize>,
    pub main_slot: usize,
}

impl View for LayoutPlan {
    type V = LayoutPlanView;

    open spec fn view(&self) -> LayoutPlanView {
        LayoutPlanView {
            rows: self.rows@,
            time_slot: self.time_slot,
            status_slot: self.status_slot,
            main_slot: self.main_slot,
        }
    }
}

/// Whether the clock goes above the main content.
pub open spec fn time_on_top(show_time: bool, time_position: WidgetPosition) -> bool {
    show_time && time_position != WidgetPosition::Hidden && time_position
        != WidgetPosition::Bottom
}

/// Whether the clock goes below the main content.
pub open spec fn time_at_bottom(show_time: bool, time_position: WidgetPosition) -> bool {
    show_time && time_position == WidgetPosition::Bottom
}

/// Whether the status bar goes below the main content.
pub open spec fn status_at_bottom(status_position: WidgetPosition) -> bool {
    status_position == WidgetPosition::Default || status_position == WidgetPosition::Bottom
}

/// One line, or none.
pub open spec fn line_if(present: bool) -> Seq<Row> {
    if present {
        seq![Row::Length(1)]
    } else {
        Seq::empty()
    }
}

/// The rows above the main content: the padding, then the clock and the
/// status bar if they go there.
pub open spec fn rows_above(
    window_padding: u16,
    show_time: bool,
    time_position: WidgetPosition,
    status_position: WidgetPosition,
) -> Seq<Row> {
    seq![Row::Length(window_padding)] + line_if(time_on_top(show_time, time_position)) + line_if(
        status_position == WidgetPosition::Top,
    )
}

/// The rows below the main content: the status bar and the clock if they
/// go there, then the padding.
pub open spec fn rows_below(
    window_padding: u16,
    show_time: bool,
    time_position: WidgetPosition,
    status_position: WidgetPosition,
) -> Seq<Row> {
    line_if(status_at_bottom(status_position)) + line_if(
        time_at_bottom(show_time, time_position),
    ) + seq![Row::Length(window_padding)]
}

/// The screen from top to bottom. The main content takes what the other
/// rows leave. The clock is shown only if it is enabled, above the main
/// content unless it is placed at the bottom or hidden; the status bar is
/// shown below the main content unless it is placed at the top or hidden.
pub open spec fn layout_of(
    window_padding: u16,
    show_time: bool,
    time_position: WidgetPosition,
    status_position: WidgetPosition,
) -> LayoutPlanView {
    let above = rows_above(window_padding, show_time, time_position, status_position);
    let below = rows_below(window_padding, show_time, time_position, status_position);
    let top_time = time_on_top(show_time, time_position);
    LayoutPlanView {
        rows: above + seq![Row::Min(1)] + below,
        time_slot: if top_time {
            Some(1usize)
        } else if time_at_bottom(show_time, time_position) {
            Some((above.len() + 1 + line_if(status_at_bottom(status_position)).len()) as usize)
        } else {
            None
        },
        status_slot: if status_position == WidgetPosition::Top {
            Some((above.len() - 1) as usize)
        } else if status_at_bottom(status_position) {
            Some((above.len() + 1) as usize)
        } else {
            None
        },
        main_slot: above.len() as usize,
    }
}

/// Lay the screen out in rows.
pub fn plan_layout(
    window_padding: u16,
    show_time: bool,
    time_position: WidgetPosition,
    status_position: WidgetPosition,
) -> (plan: LayoutPlan)
    ensures
        plan@ == layout_of(window_padding, show_time, time_position, status_position),
{
    let mut rows: Vec<Row> = Vec::new();
    let mut time_slot: Option<usize> = None;
    let mut status_slot: Option<usize> = None;

    // Top padding
    rows.push(Row::Length(window_padding));

    // Time at top (default behavior)
    if show_time && time_position != WidgetPosition::Hidden && time_position
        != WidgetPosition::Bottom {
        time_slot = Some(rows.len());
        rows.push(Row::Length(1));
    }
    // Status at top (if configured)

    if status_position == WidgetPosition::Top {
        status_slot = Some(rows.len());
        rows.push(Row::Length(1));
    }
    assert(rows@ =~= rows_above(window_padding, show_time, time_position, status_position));

    // Main content area
    let main_slot = rows.len();
    rows.push(Row::Min(1));

    // Status at bottom (default behavior)
    if status_position == WidgetPosition::Default || status_position == WidgetPosition::Bottom {
        status_slot = Some(rows.len());
        rows.push(Row::Length(1));
    }
    // Time at bottom (if configured)

    if show_time && time_position == WidgetPosition::Bottom {
        time_slot = Some(rows.len());
        rows.push(Row::Length(1));
    }
    // Bottom padding

    rows.push(Row::Length(window_padding));
    assert(rows@ =~= rows_above(window_padding, show_time, time_position, status_position)
        + seq![Row::Min(1)] + rows_below(
        window_padding,
        show_time,
        time_position,
        status_position,
    ));
    LayoutPlan { rows, time_slot, status_slot, main_slot }
}

/// The rows above the main content are the padding and at most two lines.
pub proof fn lemma_rows_above(
    window_padding: u16,
    show_time: bool,
    time_position: WidgetPosition,
    status_position: WidgetPosition,
)
    ensures
        ({
            let above = rows_above(window_padding, show_time, time_position, status_position);
            &&& 1 <= above.len() <= 3
            &&& above[0] == Row::Length(window_padding)
            &&& forall|i: int| 1 <= i < above.len() ==> above[i] == Row::Length(1)
            &&& above.len() == 1 + line_if(time_on_top(show_time, time_position)).len() + line_if(
                status_position == WidgetPosition::Top,
            ).len()
        }),
{
}

/// The rows below the main content are at most two lines and the padding.
pub proof fn lemma_rows_below(
    window_padding: u16,
    show_time: bool,
    time_position: WidgetPosition,
    status_position: WidgetPosition,
)
    ensures
        ({
            let below = rows_below(window_padding, show_time, time_position, status_position);
            &&& 1 <= below.len() <= 3
            &&& below.last() == Row::Length(window_padding)
            &&& forall|i: int| 0 <= i < below.len() - 1 ==> below[i] == Row::Length(1)
            &&& below.len() == 1 + line_if(status_at_bottom(status_position)).len() + line_if(
                time_at_bottom(show_time, time_position),
            ).len()
        }),
{
}

/// The slots of a layout point at the rows they say: one line each for the
/// clock and the status bar, the stretching row for the main content, and
/// no two of them at the same row. The clock has a row exactly if it is
/// enabled and not hidden, the status bar exactly if it is not hidden.
pub proof fn lemma_slots_point_at_their_rows(
    window_padding: u16,
    show_time: bool,
    time_position: WidgetPosition,
    status_position: WidgetPosition,
)
    ensures
        ({
            let plan = layout_of(window_padding, show_time, time_position, status_position);
            &&& plan.main_slot < plan.rows.len()
            &&& plan.rows[plan.main_slot as int] == Row::Min(1)
            &&& plan.rows[0] == Row::Length(window_padding)
            &&& plan.rows.last() == Row::Length(window_padding)
            &&& (plan.time_slot matches Some(t) ==> 0 < t < plan.rows.len() - 1 && plan.rows[t as int]
                == Row::Length(1) && t != plan.main_slot)
            &&& (plan.status_slot matches Some(t) ==> 0 < t < plan.rows.len() - 1
                && plan.rows[t as int] == Row::Length(1) && t != plan.main_slot)
            &&& (plan.time_slot is Some && plan.status_slot is Some ==> plan.time_slot
                != plan.status_slot)
            &&& (plan.time_slot is Some <==> (show_time && time_position
                != WidgetPosition::Hidden))
            &&& (plan.status_slot is Some <==> status_position != WidgetPosition::Hidden)
        }),
{
    lemma_rows_above(window_padding, show_time, time_position, status_position);
    lemma_rows_below(window_padding, show_time, time_position, status_position);
    let above = rows_above(window_padding, show_time, time_position, status_position);
    let below = rows_below(window_padding, show_time, time_position, status_position);
    let plan = layout_of(window_padding, show_time, time_position, status_position);
    let n = above.len() as int;
    assert(plan.rows.len() == n + 1 + below.len());
    assert(plan.rows[n] == Row::Min(1));
    assert(forall|i: int| 0 <= i < n ==> plan.rows[i] == above[i]);
    assert(forall|i: int| 0 <= i < below.len() ==> plan.rows[n + 1 + i] == below[i]);
    assert(plan.rows.last() == below.last());
    if plan.time_slot is Some {
        let t = plan.time_slot->0 as int;
        if t > n {
            assert(plan.rows[t] == below[t - n - 1]);
        }
    }
    if plan.status_slot is Some {
        let t = plan.status_slot->0 as int;
        if t > n {
            assert(plan.rows[t] == below[t - n - 1]);
        }
    }
}

/// The widths of the two blocks of the status bar, left and right, on a
/// screen of `width` columns: the right block holds the caps lock label,
/// the left block what is left between the paddings. `None` where the
/// screen is too narrow for both.
pub open spec fn status_widths_of(width: u16, window_padding: u16, caps_label_len: usize)
    -> Option<(u16, u16)> {
    let right = 1 + window_padding + caps_label_len;
    if right <= u16::MAX && window_padding + right <= width {
        Some(((width - window_padding - right) as u16, right as u16))
    } else {
        None
    }
}

/// Split the status bar in its left and right block.
pub fn status_widths(width: u16, window_padding: u16, caps_label_len: usize) -> (r: Option<
    (u16, u16),
>)
    ensures
        r == status_widths_of(width, window_padding, caps_label_len),
{
    if caps_label_len > 0xffff {
        return None;
    }
    let right: u32 = 1 + window_padding as u32 + caps_label_len as u32;
    if right <= 0xffff && window_padding as u32 + right <= width as u32 {
        Some(((width as u32 - window_padding as u32 - right) as u16, right as u16))
    } else {
        None
    }
}

/// A rectangle of the screen.
#[derive(Debug, Clone, Copy, PartialEq, Eq, Structural)]
pub struct Area {
    pub x: u16,
    pub y: u16,
    pub width: u16,
    pub height: u16,
}

/// The box of `width` by `height` cells centred in `area`, and the frame
/// inside it that `padding` leaves on every side, both placed relative to
/// the area's corner. `None` where the box does not fit the area or the
/// padding does not fit the box.
pub open spec fn centered_of(area: Area, width: u16, height: u16, padding: u16) -> Option<
    (Area, Area),
> {
    if width <= area.width && height <= area.height && 2 * padding <= width && 2 * padding
        <= height {
        let x = (area.width - width) / 2;
        let y = (area.height - height) / 2;
        Some(
            (
                Area { x: x as u16, y: y as u16, width, height },
                Area {
                    x: (x + padding) as u16,
                    y: (y + padding) as u16,
                    width: (width - 2 * padding) as u16,
                    height: (height - 2 * padding) as u16,
                },
            ),
        )
    } else {
        None
    }
}

/// Place a box in the middle of an area, with its padded frame.
pub fn centered(area: Area, width: u16, height: u16, padding: u16) -> (r: Option<(Area, Area)>)
    ensures
        r == centered_of(area, width, height, padding),
{
    if width <= area.width && height <= area.height && padding as u32 * 2 <= width as u32
        && padding as u32 * 2 <= height as u32 {
        let x = (area.width - width) / 2;
        let y = (area.height - height) / 2;
        assert(x + padding <= u16::MAX);
        assert(y + padding <= u16::MAX);
        Some(
            (
                Area { x, y, width, height },
                Area {
                    x: x + padding,
                    y: y + padding,
                    width: width - 2 * padding,
                    height: height - 2 * padding,
                },
            ),
        )
    } else {
        None
    }
}

/// A centred box lies within its area, and its frame within the box.
pub proof fn lemma_centered_fits(area: Area, width: u16, height: u16, padding: u16)
    ensures
        centered_of(area, width, height, padding) matches Some((container, frame)) ==> {
            &&& container.x + container.width <= area.width
            &&& container.y + container.height <= area.height
            &&& container.x <= frame.x
            &&& container.y <= frame.y
            &&& frame.x + frame.width <= container.x + container.width
            &&& frame.y + frame.height <= container.y + container.height
        },
{
}

impl Greeter {
    /// Width of the main prompt container.
    pub fn width(&self) -> (w: u16)
        ensures
            w == match self@.loaded_config {
                Some(c) => c.layout.width,
                None => 80,
            },
    {
        match &self.loaded_config {
            Some(c) => c.layout.width,
            None => 80,
        }
    }

    /// Padding around the terminal window; none unless configured.
    pub fn window_padding(&self) -> (p: u16)
        ensures
            p == match self@.loaded_config {
                Some(c) => c.layout.window_padding.unwrap_or(0),
                None => 0,
            },
    {
        match &self.loaded_config {
            Some(c) => match c.layout.window_padding {
                Some(p) => p,
                None => 0,
            },
            None => 0,
        }
    }

    /// Padding inside the main container, the border included: one more
    /// than what is configured, and two if nothing is.
    pub fn container_padding(&self) -> (p: u16)
        ensures
            p == match self@.loaded_config {
                Some(c) => {
                    if c.layout.container_padding.unwrap_or(1) < u16::MAX {
                        (c.layout.container_padding.unwrap_or(1) + 1) as u16
                    } else {
                        u16::MAX
                    }
                },
                None => 2,
            },
    {
        let inner: u16 = match &self.loaded_config {
            Some(c) => match c.layout.container_padding {
                Some(p) => p,
                None => 1,
            },
            None => 1,
        };
        if inner < u16::MAX {
            inner + 1
        } else {
            u16::MAX
        }
    }
}

} // verus!
