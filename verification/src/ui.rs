//! Screen geometry: the footer buttons, the transfer dialog's controls, and
//! which of them a mouse position hits.  Areas are split by `ratatui`'s
//! layout solver.
use vstd::prelude::*;

use ratatui::layout as rl;
use ratatui::layout::Constraint as RC;
use ratatui::layout::Direction as RD;

use crate::state::{AppState, InputMode, TransferControl, TransferDialogState, shows_source_spec};

verus! {

/// A rectangle of terminal cells.
#[derive(Debug, Clone, Copy, PartialEq, Eq, Structural)]
pub struct Rect {
    pub x: u16,
    pub y: u16,
    pub width: u16,
    pub height: u16,
}

/// The direction in which a layout splits an area.
#[derive(Debug, Clone, Copy, PartialEq, Eq, Structural)]
pub enum Direction {
    Horizontal,
    Vertical,
}

/// A size rule of a layout segment (the `ratatui` constraints used here).
#[derive(Debug, Clone, Copy, PartialEq, Eq, Structural)]
pub enum Constraint {
    Min(u16),
    Length(u16),
    Percentage(u16),
    Ratio(u32, u32),
    Fill(u16),
}

/// The area `ratatui::layout::Rect::new` makes of a rectangle: its width
/// and height cut so that it ends within the `u16` range.
pub open spec fn clamped(a: Rect) -> Rect {
    Rect {
        x: a.x,
        y: a.y,
        width: min_u16(a.width, (u16::MAX - a.x) as u16),
        height: min_u16(a.height, (u16::MAX - a.y) as u16),
    }
}

/// A part of a split of `area` in `direction`: across the direction it
/// spans the whole (clamped) area, along it it lies inside the area.
pub open spec fn part_within(direction: Direction, area: Rect, p: Rect) -> bool {
    let a = clamped(area);
    match direction {
        Direction::Vertical => p.x == a.x && p.width == a.width && a.y <= p.y && p.y + p.height <= a.y + a.height,
        Direction::Horizontal => p.y == a.y && p.height == a.height && a.x <= p.x && p.x + p.width <= a.x
            + a.width,
    }
}

/// What a split of `area` in `direction` into `n` parts gives, as far as
/// `ratatui` fixes it whatever its solver chooses: `n` parts, each within
/// the area (see [`part_within`]).
pub open spec fn split_shape(direction: Direction, area: Rect, n: nat, parts: Seq<Rect>) -> bool {
    &&& parts.len() == n
    &&& forall|i: int| 0 <= i < n ==> part_within(direction, area, #[trigger] parts[i])
}

/// That `parts` came back from a `ratatui` split of `area` in `direction`
/// by `constraints`.  It is a relation, not a function: the solver may
/// give other parts for the same request, and nothing is claimed of which.
/// It records the request a result answers, so that contracts can say
/// which constraints were asked for.
pub uninterp spec fn split_outcome(direction: Direction, constraints: Seq<Constraint>, area: Rect, parts: Seq<Rect>) -> bool;

/// A result of splitting `area` in `direction` by `constraints`: an
/// outcome of that request (see [`split_outcome`]) with the shape `ratatui`
/// fixes (see [`split_shape`]).
pub open spec fn laid_out(direction: Direction, constraints: Seq<Constraint>, area: Rect, parts: Seq<Rect>) -> bool {
    split_outcome(direction, constraints, area, parts) && split_shape(direction, area, constraints.len(), parts)
}

/// `ratatui::layout::Layout::split` with the given direction and
/// constraints, of the area `ratatui::layout::Rect::new` makes of the given
/// numbers.  It yields one area per constraint.  Each area copies the
/// split area's position and size across the direction (`changes_to_rects`
/// in `ratatui`), and its ends along the direction are solver variables
/// bound to the area by required constraints, rounded to cells.  Which
/// sizes the solver picks is left unsaid: it is not shown to give the same
/// areas on every call, so callers that must agree on areas share one
/// result.
#[verifier::external_body]
fn split(direction: Direction, constraints: &Vec<Constraint>, area: Rect) -> (res: Vec<Rect>)
    ensures
        split_outcome(direction, constraints@, area, res@),
        split_shape(direction, area, constraints@.len(), res@),
{
    let cs = constraints.iter().map(|c| match *c {
        Constraint::Min(v) => RC::Min(v),
        Constraint::Length(v) => RC::Length(v),
        Constraint::Percentage(v) => RC::Percentage(v),
        Constraint::Ratio(a, b) => RC::Ratio(a, b),
        Constraint::Fill(v) => RC::Fill(v),
    });
    let dir = match direction { Direction::Horizontal => RD::Horizontal, Direction::Vertical => RD::Vertical };
    let area = rl::Rect::new(area.x, area.y, area.width, area.height);
    rl::Layout::new(dir, cs).split(area).iter().map(|r| Rect { x: r.x, y: r.y, width: r.width, height: r.height }).collect()
}

pub open spec fn sat_add(a: u16, b: u16) -> u16 {
    if a + b <= u16::MAX { (a + b) as u16 } else { u16::MAX }
}

pub open spec fn sat_sub(a: u16, b: u16) -> u16 {
    if a >= b { (a - b) as u16 } else { 0 }
}

pub open spec fn min_u16(a: u16, b: u16) -> u16 {
    if a <= b { a } else { b }
}

/// The inside of a block drawn with borders on all sides
/// (`ratatui::widgets::Block::inner` for `Borders::ALL`, no title).
pub open spec fn bordered_inner_spec(a: Rect) -> Rect {
    Rect {
        x: min_u16(sat_add(a.x, 1), sat_add(a.x, a.width)),
        y: min_u16(sat_add(a.y, 1), sat_add(a.y, a.height)),
        width: sat_sub(sat_sub(a.width, 1), 1),
        height: sat_sub(sat_sub(a.height, 1), 1),
    }
}

fn sat_add_exec(a: u16, b: u16) -> (res: u16)
    ensures
        res == sat_add(a, b),
{
    if a <= u16::MAX - b { a + b } else { u16::MAX }
}

fn sat_sub_exec(a: u16, b: u16) -> (res: u16)
    ensures
        res == sat_sub(a, b),
{
    if a >= b { a - b } else { 0 }
}

pub fn bordered_inner(a: Rect) -> (res: Rect)
    ensures
        res == bordered_inner_spec(a),
{
    let x1 = sat_add_exec(a.x, 1);
    let right = sat_add_exec(a.x, a.width);
    let y1 = sat_add_exec(a.y, 1);
    let bottom = sat_add_exec(a.y, a.height);
    Rect {
        x: if x1 <= right { x1 } else { right },
        y: if y1 <= bottom { y1 } else { bottom },
        width: sat_sub_exec(sat_sub_exec(a.width, 1), 1),
        height: sat_sub_exec(sat_sub_exec(a.height, 1), 1),
    }
}

/// Whether a cell lies inside an area.
pub open spec fn rect_contains_spec(area: Rect, x: u16, y: u16) -> bool {
    x >= area.x && x < sat_add(area.x, area.width) && y >= area.y && y < sat_add(area.y, area.height)
}

pub fn rect_contains(area: Rect, x: u16, y: u16) -> (res: bool)
    ensures
        res == rect_contains_spec(area, x, y),
{
    x >= area.x && x < sat_add_exec(area.x, area.width) && y >= area.y && y < sat_add_exec(area.y, area.height)
}

// ---------------------------------------------------------------------------
// Footer
// ---------------------------------------------------------------------------

/// The labels of the ten footer slots; only F-key slots have a button.
pub open spec fn footer_labels() -> Seq<Seq<char>> {
    seq![
        ""@,
        ""@,
        "View (F3)"@,
        ""@,
        "Copy (F5)"@,
        "Move (F6)"@,
        "Mkdir (F7)"@,
        "Delete (F8)"@,
        ""@,
        ""@,
    ]
}

pub fn bottom_bar_buttons() -> (res: [&'static str; 10])
    ensures
        res@.map_values(|l: &'static str| l@) == footer_labels(),
{
    let res = ["", "", "View (F3)", "", "Copy (F5)", "Move (F6)", "Mkdir (F7)", "Delete (F8)", "", ""];
    assert(res@.map_values(|l: &'static str| l@) =~= footer_labels());
    res
}

/// The second of the parts a split gave: the footer below the panes, or
/// the middle of three.
pub fn middle_part(parts: &Vec<Rect>) -> (res: Rect)
    requires
        parts@.len() >= 2,
    ensures
        res == parts@[1],
{
    parts[1]
}

/// What the frame is split into, top to bottom: the panes (at least three
/// rows) and the footer (three rows).
pub open spec fn footer_row_constraints_spec() -> Seq<Constraint> {
    seq![Constraint::Min(3), Constraint::Length(3)]
}

pub fn footer_row_constraints() -> (res: Vec<Constraint>)
    ensures
        res@ == footer_row_constraints_spec(),
{
    let mut cs: Vec<Constraint> = Vec::new();
    cs.push(Constraint::Min(3));
    cs.push(Constraint::Length(3));
    assert(cs@ =~= seq![Constraint::Min(3), Constraint::Length(3)]);
    cs
}

/// The ten equal shares of the footer, left to right.
pub open spec fn footer_slot_constraints_spec() -> Seq<Constraint> {
    Seq::new(10, |k: int| Constraint::Ratio(1, 10))
}

pub fn footer_slot_constraints() -> (res: Vec<Constraint>)
    ensures
        res@ == footer_slot_constraints_spec(),
{
    let mut cs: Vec<Constraint> = Vec::new();
    let mut i: usize = 0;
    while i < 10
        invariant
            i <= 10,
            cs@ =~= Seq::new(i as nat, |k: int| Constraint::Ratio(1, 10)),
        decreases 10 - i,
    {
        cs.push(Constraint::Ratio(1, 10));
        i = i + 1;
    }
    assert(cs@ =~= footer_slot_constraints_spec());
    cs
}

/// `area` is the footer of `frame`: the second part of a vertical split of
/// the frame in two (see [`footer_row_constraints`]).
pub open spec fn footer_shape(frame: Rect, area: Rect) -> bool {
    exists|rows: Seq<Rect>| #[trigger] laid_out(Direction::Vertical, footer_row_constraints_spec(), frame, rows) && area == rows[1]
}

/// `slots` are the footer slots of `frame`: a horizontal split of its
/// footer in ten (see [`footer_slot_constraints`]).
pub open spec fn slots_shape(frame: Rect, slots: Seq<Rect>) -> bool {
    exists|area: Rect| #[trigger] footer_shape(frame, area) && laid_out(Direction::Horizontal, footer_slot_constraints_spec(), area, slots)
}

/// The footer: the three rows under the panes of a frame.
pub fn bottom_bar_area(frame: Rect) -> (res: Rect)
    ensures
        footer_shape(frame, res),
{
    let cs = footer_row_constraints();
    let parts = split(Direction::Vertical, &cs, frame);
    let res = middle_part(&parts);
    assert(laid_out(Direction::Vertical, footer_row_constraints_spec(), frame, parts@) && res == parts@[1]);
    res
}

/// The ten equal slots of the footer.
pub fn bottom_bar_button_areas(area: Rect) -> (res: Vec<Rect>)
    ensures
        laid_out(Direction::Horizontal, footer_slot_constraints_spec(), area, res@),
        res@.len() == 10,
{
    let cs = footer_slot_constraints();
    split(Direction::Horizontal, &cs, area)
}

/// The first footer slot from `i` on that has a button holding the cell.
pub open spec fn first_footer_hit(slots: Seq<Rect>, x: u16, y: u16, i: int) -> Option<usize>
    decreases 10 - i,
{
    if i >= 10 || i < 0 || i >= slots.len() {
        None
    } else if footer_labels()[i].len() > 0 && rect_contains_spec(slots[i], x, y) {
        Some(i as usize)
    } else {
        first_footer_hit(slots, x, y, i + 1)
    }
}

/// The footer slot under a cell, given the footer's slots: the first slot
/// with a button that holds it, in normal mode only.
pub open spec fn footer_hit(mode: InputMode, slots: Seq<Rect>, x: u16, y: u16) -> Option<usize> {
    if mode != InputMode::Normal {
        None
    } else {
        first_footer_hit(slots, x, y, 0)
    }
}

/// The footer button under a cell, given the footer slots that were drawn
/// (see [`footer_hit`]).
pub fn footer_hit_target(app: &AppState, slots: &Vec<Rect>, x: u16, y: u16) -> (res: Option<usize>)
    ensures
        res == footer_hit(app.mode, slots@, x, y),
{
    if app.mode != InputMode::Normal {
        return None;
    }
    let labels = bottom_bar_buttons();
    let mut i: usize = 0;
    while i < 10 && i < slots.len()
        invariant
            i <= 10,
            app.mode == InputMode::Normal,
            labels@.map_values(|l: &'static str| l@) == footer_labels(),
            first_footer_hit(slots@, x, y, 0) == first_footer_hit(slots@, x, y, i as int),
        decreases 10 - i,
    {
        proof {
            assert(labels@.map_values(|l: &'static str| l@)[i as int] == labels@[i as int]@);
        }
        if !labels[i].is_empty() && rect_contains(slots[i], x, y) {
            return Some(i);
        }
        i = i + 1;
    }
    None
}

/// The footer button under a cell of a frame: its slots are laid out
/// afresh, and the answer is the hit among those slots.
pub fn bottom_bar_hit_target(app: &AppState, frame_area: Rect, x: u16, y: u16) -> (res: Option<usize>)
    ensures
        exists|slots: Seq<Rect>| #[trigger] slots_shape(frame_area, slots) && res == footer_hit(app.mode, slots, x, y),
{
    let area = bottom_bar_area(frame_area);
    let slots = bottom_bar_button_areas(area);
    let res = footer_hit_target(app, &slots, x, y);
    assert(footer_shape(frame_area, area) && laid_out(Direction::Horizontal, footer_slot_constraints_spec(), area, slots@));
    assert(slots_shape(frame_area, slots@) && res == footer_hit(app.mode, slots@, x, y));
    res
}

// ---------------------------------------------------------------------------
// Transfer dialog
// ---------------------------------------------------------------------------

/// Whether a control of the transfer dialog is drawn highlighted: it has
/// the focus or the mouse is over it.
pub open spec fn highlighted_spec(dialog: TransferDialogState, control: TransferControl) -> bool {
    dialog.focus == control || dialog.hovered == Some(control)
}

pub fn transfer_control_highlighted(dialog: &TransferDialogState, control: TransferControl) -> (res: bool)
    ensures
        res == highlighted_spec(*dialog, control),
{
    dialog.focus == control || match dialog.hovered {
        Some(h) => h == control,
        None => false,
    }
}

/// The rows of a centred box: free space, `height` rows, free space.
pub open spec fn centered_row_constraints_spec(height: u16) -> Seq<Constraint> {
    seq![Constraint::Fill(1), Constraint::Length(height), Constraint::Fill(1)]
}

pub fn centered_row_constraints(height: u16) -> (res: Vec<Constraint>)
    ensures
        res@ == centered_row_constraints_spec(height),
{
    let mut v: Vec<Constraint> = Vec::new();
    v.push(Constraint::Fill(1));
    v.push(Constraint::Length(height));
    v.push(Constraint::Fill(1));
    assert(v@ =~= seq![Constraint::Fill(1), Constraint::Length(height), Constraint::Fill(1)]);
    v
}

/// The columns of a centred box `width_percent` wide: equal margins on
/// both sides.
pub open spec fn centered_column_constraints_spec(width_percent: u16) -> Seq<Constraint> {
    seq![
        Constraint::Percentage(((100 - width_percent) / 2) as u16),
        Constraint::Percentage(width_percent),
        Constraint::Percentage(((100 - width_percent) / 2) as u16),
    ]
}

pub fn centered_column_constraints(width_percent: u16) -> (res: Vec<Constraint>)
    requires
        width_percent <= 100,
    ensures
        res@ == centered_column_constraints_spec(width_percent),
{
    let side = (100 - width_percent) / 2;
    let mut h: Vec<Constraint> = Vec::new();
    h.push(Constraint::Percentage(side));
    h.push(Constraint::Percentage(width_percent));
    h.push(Constraint::Percentage(side));
    assert(h@ =~= seq![Constraint::Percentage(side), Constraint::Percentage(width_percent), Constraint::Percentage(side)]);
    h
}

/// `res` is a box `width_percent` wide and `height` high in the middle of
/// `area`: the middle column of the middle row, split as
/// [`centered_row_constraints`] and [`centered_column_constraints`] ask.
pub open spec fn centered_shape(width_percent: u16, height: u16, area: Rect, res: Rect) -> bool {
    exists|rows: Seq<Rect>, columns: Seq<Rect>|
        #[trigger] laid_out(Direction::Vertical, centered_row_constraints_spec(height), area, rows)
            && #[trigger] laid_out(Direction::Horizontal, centered_column_constraints_spec(width_percent), rows[1], columns)
            && res == columns[1]
}

/// An area `width_percent` wide and `height` high in the middle of `area`.
pub fn centered_rect(width_percent: u16, height: u16, area: Rect) -> (res: Rect)
    requires
        width_percent <= 100,
    ensures
        centered_shape(width_percent, height, area, res),
{
    let v = centered_row_constraints(height);
    let rows = split(Direction::Vertical, &v, area);
    let h = centered_column_constraints(width_percent);
    let columns = split(Direction::Horizontal, &h, middle_part(&rows));
    let res = middle_part(&columns);
    assert(laid_out(Direction::Vertical, centered_row_constraints_spec(height), area, rows@)
        && laid_out(Direction::Horizontal, centered_column_constraints_spec(width_percent), rows@[1], columns@)
        && res == columns@[1]);
    res
}

/// Where the transfer dialog draws itself and its controls.
#[derive(Debug, Clone, Copy, PartialEq, Eq, Structural)]
pub struct TransferDialogLayout {
    pub area: Rect,
    pub source_field: Option<Rect>,
    pub destination_field: Rect,
    pub confirm_button: Rect,
    pub cancel_button: Rect,
}

/// The rows inside the transfer dialog: three fields of three rows when it
/// shows the source, else two and the rest.
pub open spec fn dialog_row_constraints_spec(shows: bool) -> Seq<Constraint> {
    if shows {
        seq![Constraint::Length(3), Constraint::Length(3), Constraint::Length(3)]
    } else {
        seq![Constraint::Length(3), Constraint::Length(3), Constraint::Min(0)]
    }
}

pub fn dialog_row_constraints(shows: bool) -> (res: Vec<Constraint>)
    ensures
        res@ == dialog_row_constraints_spec(shows),
{
    let mut rc: Vec<Constraint> = Vec::new();
    rc.push(Constraint::Length(3));
    rc.push(Constraint::Length(3));
    if shows {
        rc.push(Constraint::Length(3));
        assert(rc@ =~= seq![Constraint::Length(3), Constraint::Length(3), Constraint::Length(3)]);
    } else {
        rc.push(Constraint::Min(0));
        assert(rc@ =~= seq![Constraint::Length(3), Constraint::Length(3), Constraint::Min(0)]);
    }
    rc
}

/// The button row's columns: margin, Confirm (18), gap (2), Cancel (16),
/// margin.
pub open spec fn dialog_button_constraints_spec() -> Seq<Constraint> {
    seq![
        Constraint::Fill(1),
        Constraint::Length(18),
        Constraint::Length(2),
        Constraint::Length(16),
        Constraint::Fill(1),
    ]
}

pub fn dialog_button_constraints() -> (res: Vec<Constraint>)
    ensures
        res@ == dialog_button_constraints_spec(),
{
    let mut bc: Vec<Constraint> = Vec::new();
    bc.push(Constraint::Fill(1));
    bc.push(Constraint::Length(18));
    bc.push(Constraint::Length(2));
    bc.push(Constraint::Length(16));
    bc.push(Constraint::Fill(1));
    assert(bc@ =~= seq![Constraint::Fill(1), Constraint::Length(18), Constraint::Length(2), Constraint::Length(16), Constraint::Fill(1)]);
    bc
}

/// The dialog's controls in its box `area`, from its rows and the columns
/// of its button row: the source field (when shown) and the destination
/// field in the first rows, Confirm in the second column and Cancel in the
/// fourth.
pub open spec fn dialog_layout_spec(area: Rect, shows: bool, rows: Seq<Rect>, buttons: Seq<Rect>) -> TransferDialogLayout {
    TransferDialogLayout {
        area,
        source_field: if shows { Some(rows[0]) } else { None },
        destination_field: if shows { rows[1] } else { rows[0] },
        confirm_button: buttons[1],
        cancel_button: buttons[3],
    }
}

/// The row that holds the buttons: the third when the source is shown,
/// else the second.
pub open spec fn button_row_spec(shows: bool, rows: Seq<Rect>) -> Rect {
    if shows { rows[2] } else { rows[1] }
}

pub fn button_row(shows: bool, rows: &Vec<Rect>) -> (res: Rect)
    requires
        rows@.len() == 3,
    ensures
        res == button_row_spec(shows, rows@),
{
    if shows { rows[2] } else { rows[1] }
}

/// Places the dialog's controls (see [`dialog_layout_spec`]).
pub fn dialog_layout_from(area: Rect, shows: bool, rows: &Vec<Rect>, buttons: &Vec<Rect>) -> (res: TransferDialogLayout)
    requires
        rows@.len() == 3,
        buttons@.len() == 5,
    ensures
        res == dialog_layout_spec(area, shows, rows@, buttons@),
{
    TransferDialogLayout {
        area,
        source_field: if shows { Some(rows[0]) } else { None },
        destination_field: if shows { rows[1] } else { rows[0] },
        confirm_button: buttons[1],
        cancel_button: buttons[3],
    }
}

/// The height of the transfer dialog's box: 11 rows when it shows the
/// source, else 9.
pub open spec fn dialog_height(shows: bool) -> u16 {
    if shows { 11 } else { 9 }
}

/// `layout` is a transfer dialog's layout in `frame`: a centred box 70%
/// wide and [`dialog_height`] high, its
/// inside split in three rows, the button row split in five columns, and
/// the controls placed on them (see [`dialog_layout_spec`]).
pub open spec fn dialog_shape(shows: bool, frame: Rect, layout: TransferDialogLayout) -> bool {
    exists|area: Rect, rows: Seq<Rect>, buttons: Seq<Rect>|
        #[trigger] centered_shape(70, dialog_height(shows), frame, area)
            && #[trigger] laid_out(Direction::Vertical, dialog_row_constraints_spec(shows), bordered_inner_spec(area), rows)
            && #[trigger] laid_out(Direction::Horizontal, dialog_button_constraints_spec(), button_row_spec(shows, rows), buttons)
            && layout == dialog_layout_spec(area, shows, rows, buttons)
}

/// The layout of a transfer dialog in a frame: a box 70% wide (11 rows
/// when it shows the source, else 9), its fields stacked, and the buttons
/// centered in the row after them (see [`dialog_shape`]).  The source field
/// is there exactly when the operation shows its source.
pub fn transfer_dialog_layout(dialog: &TransferDialogState, frame_area: Rect) -> (res: TransferDialogLayout)
    ensures
        (res.source_field is Some) == shows_source_spec(dialog.operation),
        dialog_shape(shows_source_spec(dialog.operation), frame_area, res),
{
    let shows = dialog.operation.shows_source();
    let area = centered_rect(70, if shows { 11 } else { 9 }, frame_area);
    let inner = bordered_inner(area);
    let rc = dialog_row_constraints(shows);
    let rows = split(Direction::Vertical, &rc, inner);
    let bc = dialog_button_constraints();
    let buttons = split(Direction::Horizontal, &bc, button_row(shows, &rows));
    let res = dialog_layout_from(area, shows, &rows, &buttons);
    assert(centered_shape(70, dialog_height(shows), frame_area, area)
        && laid_out(Direction::Vertical, dialog_row_constraints_spec(shows), bordered_inner_spec(area), rows@)
        && laid_out(Direction::Horizontal, dialog_button_constraints_spec(), button_row_spec(shows, rows@), buttons@)
        && res == dialog_layout_spec(area, shows, rows@, buttons@));
    res
}

/// The inside of a bordered area, moved right by `padding` columns.
pub open spec fn padded_inner_spec(area: Rect, padding: u16) -> Rect {
    let inner = bordered_inner_spec(area);
    Rect { x: sat_add(inner.x, padding), y: inner.y, width: sat_sub(inner.width, padding), height: inner.height }
}

pub fn padded_inner_rect(area: Rect, horizontal_padding: u16) -> (res: Rect)
    ensures
        res == padded_inner_spec(area, horizontal_padding),
{
    let inner = bordered_inner(area);
    Rect {
        x: sat_add_exec(inner.x, horizontal_padding),
        y: inner.y,
        width: sat_sub_exec(inner.width, horizontal_padding),
        height: inner.height,
    }
}

/// The control of the transfer dialog under a cell, checked from the
/// source field down to Cancel.
pub open spec fn dialog_hit_spec(layout: TransferDialogLayout, x: u16, y: u16) -> Option<TransferControl> {
    if layout.source_field matches Some(f) && rect_contains_spec(f, x, y) {
        Some(TransferControl::SourceField)
    } else if rect_contains_spec(layout.destination_field, x, y) {
        Some(TransferControl::DestinationField)
    } else if rect_contains_spec(layout.confirm_button, x, y) {
        Some(TransferControl::ConfirmButton)
    } else if rect_contains_spec(layout.cancel_button, x, y) {
        Some(TransferControl::CancelButton)
    } else {
        None
    }
}

/// The control of the open transfer dialog under a cell, given the
/// dialog's layout as drawn (see [`dialog_hit_spec`]).
pub fn dialog_hit_target(app: &AppState, layout: &TransferDialogLayout, x: u16, y: u16) -> (res: Option<TransferControl>)
    ensures
        res == match app.transfer {
            None => None,
            Some(_) => dialog_hit_spec(*layout, x, y),
        },
{
    if app.transfer.is_none() {
        return None;
    }
    let in_source = match layout.source_field {
        Some(f) => rect_contains(f, x, y),
        None => false,
    };
    if in_source {
        Some(TransferControl::SourceField)
    } else if rect_contains(layout.destination_field, x, y) {
        Some(TransferControl::DestinationField)
    } else if rect_contains(layout.confirm_button, x, y) {
        Some(TransferControl::ConfirmButton)
    } else if rect_contains(layout.cancel_button, x, y) {
        Some(TransferControl::CancelButton)
    } else {
        None
    }
}

/// The control of the open transfer dialog under a cell of a frame: the
/// dialog is laid out afresh, and the answer is the hit in that layout.
pub fn transfer_dialog_hit_target(app: &AppState, frame_area: Rect, x: u16, y: u16) -> (res: Option<TransferControl>)
    ensures
        match app.transfer {
            None => res is None,
            Some(d) => exists|layout: TransferDialogLayout|
                #[trigger] dialog_shape(shows_source_spec(d.operation), frame_area, layout)
                    && (layout.source_field is Some) == shows_source_spec(d.operation)
                    && res == dialog_hit_spec(layout, x, y),
        },
{
    match &app.transfer {
        None => None,
        Some(dialog) => {
            let layout = transfer_dialog_layout(dialog, frame_area);
            let res = dialog_hit_target(app, &layout, x, y);
            assert(dialog_shape(shows_source_spec(dialog.operation), frame_area, layout)
                && (layout.source_field is Some) == shows_source_spec(dialog.operation)
                && res == dialog_hit_spec(layout, x, y));
            res
        },
    }
}

} // verus!

verus! {

/// The areas of a drawn frame that the mouse can hit: the ten footer slots
/// and, while the transfer dialog is open, the dialog's layout.  The
/// caller draws with these areas and hit-tests with the same ones.
#[derive(Debug, Clone)]
pub struct ScreenAreas {
    pub footer_slots: Vec<Rect>,
    pub transfer_dialog: Option<TransferDialogLayout>,
}

/// Lays out the mouse-sensitive areas of a frame once.
pub fn screen_areas(app: &AppState, frame_area: Rect) -> (res: ScreenAreas)
    ensures
        res.footer_slots@.len() == 10,
        slots_shape(frame_area, res.footer_slots@),
        match app.transfer {
            None => res.transfer_dialog is None,
            Some(d) => res.transfer_dialog matches Some(l) && (l.source_field is Some) == shows_source_spec(d.operation)
                && dialog_shape(shows_source_spec(d.operation), frame_area, l),
        },
{
    let footer = bottom_bar_area(frame_area);
    let footer_slots = bottom_bar_button_areas(footer);
    assert(footer_shape(frame_area, footer) && laid_out(Direction::Horizontal, footer_slot_constraints_spec(), footer, footer_slots@));
    let transfer_dialog = match &app.transfer {
        None => None,
        Some(d) => Some(transfer_dialog_layout(d, frame_area)),
    };
    ScreenAreas { footer_slots, transfer_dialog }
}

} // verus!
