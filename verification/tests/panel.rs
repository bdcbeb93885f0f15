use database_panel::database_panel_settings::DatabasePanelDockPosition;
use database_panel::database_panel_settings::DatabasePanelSettings;
use database_panel::database_panel_settings::DatabasePanelSettingsContent;
use database_panel::database_panel_settings::Pixels;
use database_panel::DatabasePanel;
use database_panel::DockPosition;
use database_panel::Event;
use database_panel::IconName;
use database_panel::SerializedDatabasePanel;
use database_panel::ToggleFocus;

fn settings_with(dock: DatabasePanelDockPosition, button: bool) -> DatabasePanelSettings {
    DatabasePanelSettings {
        button,
        default_width: Pixels(240.0f32.to_bits()),
        dock,
        indent_size: Pixels(20.0f32.to_bits()),
        auto_reveal_entries: true,
    }
}

fn empty_content() -> DatabasePanelSettingsContent {
    DatabasePanelSettingsContent {
        button: None,
        default_width: None,
        dock: None,
        indent_size: None,
        auto_reveal_entries: None,
    }
}

#[test]
fn fresh_panel_uses_settings_defaults() {
    let panel = DatabasePanel::load(settings_with(DatabasePanelDockPosition::Left, true), None);
    assert_eq!(panel.size(), Pixels(240.0f32.to_bits()));
    assert_eq!(f32::from_bits(panel.size().0), 240.0);
    assert_eq!(panel.position(), DockPosition::Left);
}

#[test]
fn restore_with_width_overrides_default() {
    let snapshot = SerializedDatabasePanel {
        width: Some(Pixels(310.5f32.to_bits())),
    };
    let panel = DatabasePanel::load(
        settings_with(DatabasePanelDockPosition::Left, true),
        Some(snapshot),
    );
    assert_eq!(f32::from_bits(panel.size().0), 310.5);
}

#[test]
fn restore_without_width_falls_back_to_default() {
    let snapshot = SerializedDatabasePanel { width: None };
    let panel = DatabasePanel::load(
        settings_with(DatabasePanelDockPosition::Left, true),
        Some(snapshot),
    );
    assert_eq!(f32::from_bits(panel.size().0), 240.0);
}

#[test]
fn restore_replaces_an_earlier_override() {
    let mut panel = DatabasePanel::new(settings_with(DatabasePanelDockPosition::Left, true));
    panel.set_size(Some(Pixels(512.0f32.to_bits())));
    panel.restore(&SerializedDatabasePanel { width: None });
    assert_eq!(f32::from_bits(panel.size().0), 240.0);
}

#[test]
fn set_size_then_size_returns_the_set_width() {
    let mut panel = DatabasePanel::new(settings_with(DatabasePanelDockPosition::Left, true));
    panel.set_size(Some(Pixels(333.25f32.to_bits())));
    assert_eq!(f32::from_bits(panel.size().0), 333.25);
}

#[test]
fn set_size_none_clears_the_override() {
    let mut panel = DatabasePanel::new(settings_with(DatabasePanelDockPosition::Left, true));
    panel.set_size(Some(Pixels(333.25f32.to_bits())));
    panel.set_size(None);
    assert_eq!(f32::from_bits(panel.size().0), 240.0);
}

#[test]
fn burst_of_set_size_yields_one_write_with_last_value() {
    let mut panel = DatabasePanel::new(settings_with(DatabasePanelDockPosition::Left, true));
    panel.set_size(Some(Pixels(100.0f32.to_bits())));
    panel.set_size(Some(Pixels(200.0f32.to_bits())));
    panel.set_size(Some(Pixels(300.0f32.to_bits())));
    let pending = panel.take_pending_serialization();
    assert_eq!(
        pending,
        Some(SerializedDatabasePanel {
            width: Some(Pixels(300.0f32.to_bits())),
        })
    );
    assert_eq!(panel.take_pending_serialization(), None);
}

#[test]
fn set_position_bottom_is_reported_as_left() {
    let mut panel = DatabasePanel::new(settings_with(DatabasePanelDockPosition::Right, true));
    let mut user_content = empty_content();
    panel.set_position(DockPosition::Bottom, &mut user_content);
    assert_eq!(user_content.dock, Some(DatabasePanelDockPosition::Left));

    let default_content = DatabasePanelSettingsContent {
        button: Some(true),
        default_width: Some(Pixels(240.0f32.to_bits())),
        dock: Some(DatabasePanelDockPosition::Right),
        indent_size: Some(Pixels(20.0f32.to_bits())),
        auto_reveal_entries: Some(true),
    };
    let merged = DatabasePanelSettings::load(&default_content, &vec![user_content]).unwrap();
    panel.settings_changed(merged);
    assert_eq!(panel.position(), DockPosition::Left);
}

#[test]
fn set_position_right_is_reported_as_right() {
    let mut panel = DatabasePanel::new(settings_with(DatabasePanelDockPosition::Left, true));
    let mut user_content = empty_content();
    panel.set_position(DockPosition::Right, &mut user_content);
    assert_eq!(user_content.dock, Some(DatabasePanelDockPosition::Right));
    panel.settings_changed(settings_with(DatabasePanelDockPosition::Right, true));
    assert_eq!(panel.position(), DockPosition::Right);
}

#[test]
fn position_is_valid_only_for_the_two_sides() {
    let panel = DatabasePanel::new(settings_with(DatabasePanelDockPosition::Left, true));
    assert!(panel.position_is_valid(DockPosition::Left));
    assert!(panel.position_is_valid(DockPosition::Right));
    assert!(!panel.position_is_valid(DockPosition::Bottom));
}

#[test]
fn icon_follows_the_button_setting() {
    let shown = DatabasePanel::new(settings_with(DatabasePanelDockPosition::Left, true));
    assert_eq!(shown.icon(), Some(IconName::Database));
    let hidden = DatabasePanel::new(settings_with(DatabasePanelDockPosition::Left, false));
    assert_eq!(hidden.icon(), None);
}

#[test]
fn settings_change_updates_position_on_next_call() {
    let mut panel = DatabasePanel::new(settings_with(DatabasePanelDockPosition::Left, true));
    assert_eq!(panel.position(), DockPosition::Left);
    let notify = panel.settings_changed(settings_with(DatabasePanelDockPosition::Right, true));
    assert!(notify);
    assert_eq!(panel.position(), DockPosition::Right);
}

#[test]
fn unchanged_settings_do_not_ask_for_a_redraw() {
    let mut panel = DatabasePanel::new(settings_with(DatabasePanelDockPosition::Left, true));
    let notify = panel.settings_changed(settings_with(DatabasePanelDockPosition::Left, true));
    assert!(!notify);
}

#[test]
fn settings_change_keeps_the_width_override() {
    let mut panel = DatabasePanel::new(settings_with(DatabasePanelDockPosition::Left, true));
    panel.set_size(Some(Pixels(310.5f32.to_bits())));
    let mut new_settings = settings_with(DatabasePanelDockPosition::Left, true);
    new_settings.default_width = Pixels(480.0f32.to_bits());
    panel.settings_changed(new_settings);
    assert_eq!(f32::from_bits(panel.size().0), 310.5);
}

#[test]
fn fixed_names_and_tokens() {
    let panel = DatabasePanel::new(settings_with(DatabasePanelDockPosition::Left, true));
    assert_eq!(DatabasePanel::persistent_name(), "Database Panel");
    assert_eq!(DatabasePanel::database_panel_key(), "DatabasePanel");
    assert_eq!(panel.icon_tooltip(), Some("Database Panel"));
    assert_eq!(panel.toggle_action(), ToggleFocus);
}

#[test]
fn focus_entering_from_outside_emits_focus() {
    let panel = DatabasePanel::new(settings_with(DatabasePanelDockPosition::Left, true));
    assert_eq!(panel.focus_in(false), Some(Event::Focus));
    assert_eq!(panel.focus_in(true), None);
}
