use zar::config::Config;
use zar::source::{LocationPath, SourceKind, SourceRef};
use zar::state::{AppState, InputMode, PaneState, TransferControl, TransferDialogState, TransferOperation};
use zar::ui::{Constraint, Rect, button_row, centered_column_constraints, centered_row_constraints, dialog_button_constraints, dialog_layout_from, dialog_row_constraints, footer_row_constraints, footer_slot_constraints, middle_part, dialog_hit_target, footer_hit_target, screen_areas, bottom_bar_buttons, bottom_bar_hit_target, rect_contains, transfer_control_highlighted, transfer_dialog_hit_target, transfer_dialog_layout};

fn pane(path: &str) -> PaneState {
    PaneState::new(
        SourceRef::InlineLocal { path: path.to_string(), label: "Tmp".to_string() },
        SourceKind::Local,
        "Tmp".to_string(),
        LocationPath::Local(path.to_string()),
        Vec::new(),
    )
}

fn app_state() -> AppState {
    AppState::new(Config::default(), pane("/tmp"), pane("/tmp"))
}

fn frame(width: u16, height: u16) -> Rect {
    Rect { x: 0, y: 0, width, height }
}

#[test]
fn bottom_bar_uses_f_key_slots_only() {
    let labels = bottom_bar_buttons();
    assert_eq!(labels[0], "");
    assert_eq!(labels[1], "");
    assert_eq!(labels[2], "View (F3)");
    assert_eq!(labels[3], "");
    assert_eq!(labels[4], "Copy (F5)");
    assert_eq!(labels[5], "Move (F6)");
    assert_eq!(labels[6], "Mkdir (F7)");
    assert_eq!(labels[7], "Delete (F8)");
    assert_eq!(labels[8], "");
    assert_eq!(labels[9], "");
}

#[test]
fn bottom_bar_hit_target_ignores_empty_slots_and_maps_f_buttons() {
    let app = app_state();
    assert_eq!(bottom_bar_hit_target(&app, frame(120, 20), 6, 18), None);
    assert_eq!(bottom_bar_hit_target(&app, frame(120, 20), 30, 18), Some(2));
    assert_eq!(bottom_bar_hit_target(&app, frame(120, 20), 50, 18), Some(4));
}

#[test]
fn bottom_bar_ignores_clicks_outside_normal_mode() {
    let mut app = app_state();
    app.mode = InputMode::Command;
    assert_eq!(bottom_bar_hit_target(&app, frame(120, 20), 30, 18), None);
}

fn copy_dialog() -> TransferDialogState {
    TransferDialogState::new(
        TransferOperation::Copy,
        LocationPath::Local("/tmp/source.txt".to_string()),
        "Tmp".to_string(),
        SourceKind::Local,
        "/tmp/dest".to_string(),
    )
}

#[test]
fn transfer_dialog_maps_hits_to_controls() {
    let mut app = app_state();
    app.mode = InputMode::Transfer;
    app.transfer = Some(copy_dialog());
    assert_eq!(transfer_dialog_hit_target(&app, frame(60, 12), 16, 9), Some(TransferControl::ConfirmButton));
    assert_eq!(transfer_dialog_hit_target(&app, frame(60, 12), 36, 9), Some(TransferControl::CancelButton));
}

#[test]
fn transfer_dialog_layout_places_fields_above_buttons() {
    let dialog = copy_dialog();
    let layout = transfer_dialog_layout(&dialog, frame(60, 12));
    let source = layout.source_field.expect("copy shows its source");
    assert!(source.y < layout.destination_field.y);
    assert!(layout.destination_field.y < layout.confirm_button.y);
    assert_eq!(layout.confirm_button.y, layout.cancel_button.y);
    assert!(layout.confirm_button.x < layout.cancel_button.x);
    let delete = TransferDialogState::new(
        TransferOperation::Delete,
        LocationPath::Local("/tmp/victim.txt".to_string()),
        "Tmp".to_string(),
        SourceKind::Local,
        String::new(),
    );
    assert_eq!(transfer_dialog_layout(&delete, frame(60, 12)).source_field, None);
}

#[test]
fn highlighted_controls_are_focused_or_hovered() {
    let mut dialog = copy_dialog();
    assert!(transfer_control_highlighted(&dialog, TransferControl::DestinationField));
    assert!(!transfer_control_highlighted(&dialog, TransferControl::CancelButton));
    dialog.hovered = Some(TransferControl::CancelButton);
    assert!(transfer_control_highlighted(&dialog, TransferControl::CancelButton));
}

#[test]
fn rect_contains_excludes_the_far_edges() {
    let area = Rect { x: 2, y: 3, width: 4, height: 2 };
    assert!(rect_contains(area, 2, 3));
    assert!(rect_contains(area, 5, 4));
    assert!(!rect_contains(area, 6, 4));
    assert!(!rect_contains(area, 5, 5));
    assert!(!rect_contains(area, 1, 3));
}

#[test]
fn hits_are_tested_against_the_areas_given() {
    let app = app_state();
    let slots: Vec<Rect> = (0..10).map(|i| Rect { x: i * 10, y: 17, width: 10, height: 3 }).collect();
    assert_eq!(footer_hit_target(&app, &slots, 25, 18), Some(2));
    assert_eq!(footer_hit_target(&app, &slots, 5, 18), None);
    assert_eq!(footer_hit_target(&app, &slots, 25, 5), None);

    let mut dialog_app = app_state();
    dialog_app.mode = InputMode::Transfer;
    dialog_app.transfer = Some(copy_dialog());
    let areas = screen_areas(&dialog_app, frame(60, 12));
    assert_eq!(areas.footer_slots.len(), 10);
    let layout = areas.transfer_dialog.expect("dialog layout");
    assert!(layout.source_field.is_some());
    assert_eq!(dialog_hit_target(&dialog_app, &layout, 16, 9), Some(TransferControl::ConfirmButton));
    assert_eq!(dialog_hit_target(&app, &layout, 16, 9), None);
    assert!(screen_areas(&app, frame(60, 12)).transfer_dialog.is_none());
}

#[test]
fn layout_requests_and_their_assembly_are_fixed() {
    assert_eq!(footer_row_constraints(), vec![Constraint::Min(3), Constraint::Length(3)]);
    assert_eq!(footer_slot_constraints(), vec![Constraint::Ratio(1, 10); 10]);
    assert_eq!(centered_row_constraints(9), vec![Constraint::Fill(1), Constraint::Length(9), Constraint::Fill(1)]);
    assert_eq!(
        centered_column_constraints(70),
        vec![Constraint::Percentage(15), Constraint::Percentage(70), Constraint::Percentage(15)]
    );
    assert_eq!(dialog_row_constraints(false)[2], Constraint::Min(0));
    assert_eq!(dialog_row_constraints(true)[2], Constraint::Length(3));
    assert_eq!(dialog_button_constraints()[1], Constraint::Length(18));
    assert_eq!(dialog_button_constraints()[3], Constraint::Length(16));

    let r = |x: u16, y: u16| Rect { x, y, width: 4, height: 3 };
    let rows = vec![r(0, 1), r(0, 4), r(0, 7)];
    assert_eq!(middle_part(&rows), r(0, 4));
    assert_eq!(button_row(true, &rows), r(0, 7));
    assert_eq!(button_row(false, &rows), r(0, 4));
    let buttons = vec![r(0, 7), r(4, 7), r(8, 7), r(12, 7), r(16, 7)];
    let shown = dialog_layout_from(r(0, 0), true, &rows, &buttons);
    assert_eq!(shown.source_field, Some(r(0, 1)));
    assert_eq!(shown.destination_field, r(0, 4));
    assert_eq!(shown.confirm_button, r(4, 7));
    assert_eq!(shown.cancel_button, r(12, 7));
    let hidden = dialog_layout_from(r(0, 0), false, &rows, &buttons);
    assert_eq!(hidden.source_field, None);
    assert_eq!(hidden.destination_field, r(0, 1));
}

#[test]
fn split_parts_span_the_area_across_the_direction() {
    let app = app_state();
    let areas = screen_areas(&app, frame(120, 20));
    let footer = zar::ui::bottom_bar_area(frame(120, 20));
    assert_eq!(footer.x, 0);
    assert_eq!(footer.width, 120);
    for slot in &areas.footer_slots {
        assert_eq!(slot.y, footer.y);
        assert_eq!(slot.height, footer.height);
        assert!(slot.x + slot.width <= 120);
    }
}
