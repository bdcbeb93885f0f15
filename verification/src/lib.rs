use vstd::prelude::*;

pub mod database_panel_settings;

use crate::database_panel_settings::DatabasePanelDockPosition;
use crate::database_panel_settings::DatabasePanelSettings;
use crate::database_panel_settings::DatabasePanelSettingsContent;
use crate::database_panel_settings::Pixels;

verus! {

/// The host dock manager's vocabulary for panel placement. Unlike the
/// settings vocabulary it has a bottom dock, which this panel never accepts.
#[derive(Clone, Copy, Debug, PartialEq, Eq, Structural)]
pub enum DockPosition {
    Left,
    Bottom,
    Right,
}

/// The fixed icon identifier the panel offers the status bar.
#[derive(Clone, Copy, Debug, PartialEq, Eq, Structural)]
pub enum IconName {
    Database,
}

/// The opaque command token the host's dispatcher binds to its global
/// "toggle focus on this panel" command.
#[derive(Clone, Copy, Debug, PartialEq, Eq, Structural)]
pub struct ToggleFocus;

/// Events the panel emits to its host subscribers.
#[derive(Clone, Copy, Debug, PartialEq, Eq, Structural)]
pub enum Event {
    Focus,
}

/// The durable form of the panel's instance state: the one record written
/// under the fixed persistence key. An absent width means "use the settings
/// default".
#[derive(Clone, Copy, Debug, PartialEq)]
pub struct SerializedDatabasePanel {
    pub width: Option<Pixels>,
}

/// The panel's in-memory state: a width override that survives settings
/// reloads, the cached settings snapshot used for defaulting, and the single
/// in-flight slot for the next durable write.
pub struct DatabasePanel {
    /// The user-set width, taking precedence over the settings default.
    pub width: Option<Pixels>,
    /// The cached copy of the merged settings; replaced wholesale on change.
    pub settings: DatabasePanelSettings,
    /// The one pending durable write. Queueing a new write replaces — and
    /// thereby cancels — whatever still waits here: last writer wins.
    pub pending_serialization: Option<SerializedDatabasePanel>,
}

/// The dock side a host-requested position coerces to: this panel has no
/// bottom-dock visual, so Bottom degrades to Left.
pub open spec fn coerced_dock(position: DockPosition) -> DatabasePanelDockPosition {
    match position {
        DockPosition::Right => DatabasePanelDockPosition::Right,
        _ => DatabasePanelDockPosition::Left,
    }
}

/// The host position a settings dock side is reported as.
pub open spec fn position_of_dock(dock: DatabasePanelDockPosition) -> DockPosition {
    match dock {
        DatabasePanelDockPosition::Left => DockPosition::Left,
        DatabasePanelDockPosition::Right => DockPosition::Right,
    }
}

impl DatabasePanel {
    /// The width reported to the host: the override if one is set, else the
    /// settings default.
    pub open spec fn effective_width(self) -> Pixels {
        match self.width {
            Some(w) => w,
            None => self.settings.default_width,
        }
    }

    /// The position reported to the host, sourced live from the cached
    /// settings snapshot and never stored separately.
    pub open spec fn reported_position(self) -> DockPosition {
        position_of_dock(self.settings.dock)
    }

    /// The record a durable write made now would carry.
    pub open spec fn serialized_snapshot(self) -> SerializedDatabasePanel {
        SerializedDatabasePanel { width: self.width }
    }

    /// The state after a snapshot read back from the store is applied.
    pub open spec fn restore_spec(self, snapshot: SerializedDatabasePanel) -> Self {
        DatabasePanel { width: snapshot.width, ..self }
    }

    /// The state after a settings change is observed.
    pub open spec fn settings_changed_spec(self, new_settings: DatabasePanelSettings) -> Self {
        DatabasePanel { settings: new_settings, ..self }
    }

    /// The state after `set_size`: the override is replaced and a write of
    /// exactly that value takes over the in-flight slot.
    pub open spec fn set_size_spec(self, size: Option<Pixels>) -> Self {
        DatabasePanel {
            width: size,
            settings: self.settings,
            pending_serialization: Some(SerializedDatabasePanel { width: size }),
        }
    }

    /// A fresh panel: no width override, no pending write, and the given
    /// snapshot of the current settings cached for defaulting.
    pub fn new(settings: DatabasePanelSettings) -> (r: Self)
        ensures
            r.width is None,
            r.settings == settings,
            r.pending_serialization is None,
    {
        DatabasePanel { width: None, settings, pending_serialization: None }
    }

    /// Construction plus restoration: the panel comes up usable immediately,
    /// and the snapshot — if the background read produced one — is applied
    /// afterwards. A missing or unreadable snapshot leaves the defaults.
    pub fn load(
        settings: DatabasePanelSettings,
        serialized: Option<SerializedDatabasePanel>,
    ) -> (r: Self)
        ensures
            r.settings == settings,
            r.pending_serialization is None,
            serialized matches Some(s) ==> r.width == s.width,
            serialized is None ==> r.width is None,
    {
        let mut panel = Self::new(settings);
        match serialized {
            Some(s) => {
                panel.restore(&s);
            },
            None => {},
        }
        panel
    }

    /// Apply a snapshot read back from the store: the persisted width —
    /// present or absent — replaces the override, and nothing else moves.
    pub fn restore(&mut self, snapshot: &SerializedDatabasePanel)
        ensures
            *final(self) == old(self).restore_spec(*snapshot),
            final(self).width == snapshot.width,
    {
        self.width = snapshot.width;
    }

    /// Observe a possibly-changed settings snapshot: the cache is replaced,
    /// the width override survives, and the host is asked to redraw only
    /// when the snapshot actually differs — the equality gate that avoids
    /// redundant notifications.
    pub fn settings_changed(&mut self, new_settings: DatabasePanelSettings) -> (notify: bool)
        ensures
            *final(self) == old(self).settings_changed_spec(new_settings),
            final(self).settings == new_settings,
            final(self).width == old(self).width,
            final(self).pending_serialization == old(self).pending_serialization,
            notify == (old(self).settings != new_settings),
    {
        if self.settings != new_settings {
            self.settings = new_settings;
            true
        } else {
            false
        }
    }

    /// The dock side reported to the host, read live from the cached
    /// settings and mapped into the host's vocabulary.
    pub fn position(&self) -> (r: DockPosition)
        ensures
            r == self.reported_position(),
    {
        match self.settings.dock {
            DatabasePanelDockPosition::Left => DockPosition::Left,
            DatabasePanelDockPosition::Right => DockPosition::Right,
        }
    }

    /// Only the two side docks are acceptable; a bottom dock is rejected.
    pub fn position_is_valid(&self, position: DockPosition) -> (r: bool)
        ensures
            r == (position is Left || position is Right),
    {
        match position {
            DockPosition::Left => true,
            DockPosition::Right => true,
            DockPosition::Bottom => false,
        }
    }

    /// The settings-file edit a placement request turns into: the dock key
    /// is set to the coerced side, every other key is left alone. Dock side
    /// is a settings concern, so the edit goes to the settings file — the
    /// panel's own state changes only when the new snapshot flows back in
    /// through `settings_changed`.
    pub fn set_position(
        &self,
        position: DockPosition,
        content: &mut DatabasePanelSettingsContent,
    )
        ensures
            final(content).dock == Some(coerced_dock(position)),
            final(content).button == old(content).button,
            final(content).default_width == old(content).default_width,
            final(content).indent_size == old(content).indent_size,
            final(content).auto_reveal_entries == old(content).auto_reveal_entries,
    {
        let dock = match position {
            DockPosition::Left | DockPosition::Bottom => DatabasePanelDockPosition::Left,
            DockPosition::Right => DatabasePanelDockPosition::Right,
        };
        content.dock = Some(dock);
    }

    /// The width reported to the host: the override if set, else the
    /// settings default.
    pub fn size(&self) -> (r: Pixels)
        ensures
            r == self.effective_width(),
    {
        match self.width {
            Some(w) => w,
            None => self.settings.default_width,
        }
    }

    /// Queue a durable write of the current width: the snapshot takes over
    /// the single in-flight slot, replacing — and thereby cancelling — any
    /// write still waiting there.
    pub fn serialize(&mut self)
        ensures
            final(self).pending_serialization == Some(old(self).serialized_snapshot()),
            final(self).width == old(self).width,
            final(self).settings == old(self).settings,
    {
        self.pending_serialization = Some(SerializedDatabasePanel { width: self.width });
    }

    /// Replace the width override and queue a durable write of exactly the
    /// new value. The host is asked to redraw afterwards.
    pub fn set_size(&mut self, size: Option<Pixels>)
        ensures
            *final(self) == old(self).set_size_spec(size),
            final(self).width == size,
            final(self).pending_serialization == Some(
                (SerializedDatabasePanel { width: size }),
            ),
            final(self).settings == old(self).settings,
    {
        self.width = size;
        self.serialize();
    }

    /// Hand the pending write — if one is still waiting — to the background
    /// writer, emptying the slot. At most one write is ever handed out per
    /// burst of `set_size` calls, and it carries the last value set.
    pub fn take_pending_serialization(&mut self) -> (r: Option<SerializedDatabasePanel>)
        ensures
            r == old(self).pending_serialization,
            final(self).pending_serialization is None,
            final(self).width == old(self).width,
            final(self).settings == old(self).settings,
    {
        let taken = self.pending_serialization;
        self.pending_serialization = None;
        taken
    }

    /// The status-bar icon: the fixed database icon when the settings ask
    /// for the button, none when they hide it.
    pub fn icon(&self) -> (r: Option<IconName>)
        ensures
            r == if self.settings.button {
                Some(IconName::Database)
            } else {
                None::<IconName>
            },
    {
        if self.settings.button {
            Some(IconName::Database)
        } else {
            None
        }
    }

    /// The tooltip shown on the status-bar toggle.
    pub fn icon_tooltip(&self) -> (r: Option<&'static str>)
        ensures
            r matches Some(s) && s@ == "Database Panel"@,
    {
        Some("Database Panel")
    }

    /// The name under which the host addresses this panel.
    pub fn persistent_name() -> (r: &'static str)
        ensures
            r@ == "Database Panel"@,
    {
        "Database Panel"
    }

    /// The fixed key under which the panel's snapshot lives in the host's
    /// key-value store.
    pub fn database_panel_key() -> (r: &'static str)
        ensures
            r@ == "DatabasePanel"@,
    {
        "DatabasePanel"
    }

    /// The command token the host binds to the global toggle command.
    pub fn toggle_action(&self) -> (r: ToggleFocus)
        ensures
            r == (ToggleFocus),
    {
        ToggleFocus
    }

    /// The focus-event gate: when focus enters the panel's subtree from
    /// outside — the handle did not already contain the focused element —
    /// the panel emits `Focus` to its subscribers; otherwise nothing.
    pub fn focus_in(&self, contains_focused: bool) -> (r: Option<Event>)
        ensures
            r == if contains_focused {
                None::<Event>
            } else {
                Some(Event::Focus)
            },
    {
        if contains_focused {
            None
        } else {
            Some(Event::Focus)
        }
    }
}

/// The state after a burst of `set_size` calls, applied left to right.
pub open spec fn after_set_sizes(panel: DatabasePanel, sizes: Seq<Option<Pixels>>) -> DatabasePanel
    decreases sizes.len(),
{
    if sizes.len() == 0 {
        panel
    } else {
        after_set_sizes(panel, sizes.drop_last()).set_size_spec(sizes.last())
    }
}

/// Law: restoring a snapshot and then asking for the size yields the
/// snapshot's width when it carries one, else the current settings default.
pub proof fn lemma_restore_then_size(panel: DatabasePanel, snapshot: SerializedDatabasePanel)
    ensures
        snapshot.width matches Some(w) ==> panel.restore_spec(snapshot).effective_width() == w,
        snapshot.width is None ==> panel.restore_spec(snapshot).effective_width()
            == panel.settings.default_width,
{
}

/// Law: a width set through `set_size` is exactly the width reported by the
/// very next `size`, whatever the settings default says.
pub proof fn lemma_set_size_then_size(panel: DatabasePanel, x: Pixels)
    ensures
        panel.set_size_spec(Some(x)).effective_width() == x,
{
}

/// Law: a burst of `set_size` calls leaves at most one pending durable
/// write — the slot holds exactly the snapshot of the last call's argument,
/// never an intermediate value, and the live width agrees with it.
pub proof fn lemma_set_size_burst_last_writer_wins(
    panel: DatabasePanel,
    sizes: Seq<Option<Pixels>>,
)
    requires
        sizes.len() > 0,
    ensures
        after_set_sizes(panel, sizes).width == sizes.last(),
        after_set_sizes(panel, sizes).pending_serialization == Some(
            (SerializedDatabasePanel { width: sizes.last() }),
        ),
{
}

/// Law: once a placement request has round-tripped through the settings
/// file — the new snapshot's dock is the coerced side — the panel reports
/// the requested side, with Bottom degraded to Left.
pub proof fn lemma_set_position_round_trip(
    panel: DatabasePanel,
    position: DockPosition,
    new_settings: DatabasePanelSettings,
)
    requires
        new_settings.dock == coerced_dock(position),
    ensures
        panel.settings_changed_spec(new_settings).reported_position() == if position is Right {
            DockPosition::Right
        } else {
            DockPosition::Left
        },
{
}

/// Law: requesting the bottom dock always ends with the panel reporting
/// Left — never Right, never Bottom.
pub proof fn lemma_set_position_bottom_reports_left(
    panel: DatabasePanel,
    new_settings: DatabasePanelSettings,
)
    requires
        new_settings.dock == coerced_dock(DockPosition::Bottom),
    ensures
        panel.settings_changed_spec(new_settings).reported_position() == DockPosition::Left,
{
}

/// Law: the reported position is sourced live from the settings: as soon as
/// a change is observed, position derives from the new snapshot alone, with
/// no reload of the panel needed.
pub proof fn lemma_position_tracks_settings(
    panel: DatabasePanel,
    new_settings: DatabasePanelSettings,
)
    ensures
        panel.settings_changed_spec(new_settings).reported_position() == position_of_dock(
            new_settings.dock,
        ),
{
}

/// Law: the width override never depends on settings, so a user-resized
/// panel survives any settings reload: the override stays, and while one is
/// set the reported width ignores the new default.
pub proof fn lemma_width_override_survives_settings_change(
    panel: DatabasePanel,
    new_settings: DatabasePanelSettings,
)
    ensures
        panel.settings_changed_spec(new_settings).width == panel.width,
        panel.width matches Some(w) ==> panel.settings_changed_spec(
            new_settings,
        ).effective_width() == w,
{
}

} // verus!
