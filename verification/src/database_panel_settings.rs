use vstd::prelude::*;

verus! {

/// A pixel length exactly as the host window system hands it over: an opaque
/// 32-bit encoding. The panel never computes with a width; it stores one,
/// compares settings snapshots, and returns the stored encoding unchanged.
#[derive(Clone, Copy, Debug, PartialEq, Eq, Structural)]
pub struct Pixels(pub u32);

/// Which side of the host window the panel docks to, as the settings file
/// states it. The settings vocabulary has no bottom dock.
#[derive(Clone, Copy, Debug, PartialEq, Eq, Structural)]
pub enum DatabasePanelDockPosition {
    Left,
    Right,
}

/// An immutable snapshot of the merged panel settings. The panel keeps a
/// cached copy and replaces it wholesale whenever the settings store reports
/// a change; the authoritative copy lives in the settings subsystem.
#[derive(Clone, Copy, Debug, PartialEq, Eq, Structural)]
pub struct DatabasePanelSettings {
    /// Whether the status bar shows the panel's toggle button.
    pub button: bool,
    /// The panel width used while no override is persisted.
    pub default_width: Pixels,
    /// The side of the window the panel docks to.
    pub dock: DatabasePanelDockPosition,
    /// Indentation for nested entries; reserved for tree rendering.
    pub indent_size: Pixels,
    /// Whether active entries are revealed automatically; reserved.
    pub auto_reveal_entries: bool,
}

/// One layer of the settings file: every key optional, so that a key a layer
/// leaves unset falls through to the layer below it.
#[derive(Clone, Copy, Debug, PartialEq)]
pub struct DatabasePanelSettingsContent {
    pub button: Option<bool>,
    pub default_width: Option<Pixels>,
    pub dock: Option<DatabasePanelDockPosition>,
    pub indent_size: Option<Pixels>,
    pub auto_reveal_entries: Option<bool>,
}

impl DatabasePanelSettingsContent {
    /// The layer `overlay` written on top of `self`: every key the overlay
    /// sets wins, every key it leaves unset falls through to `self`.
    pub open spec fn merged_spec(self, overlay: Self) -> Self {
        DatabasePanelSettingsContent {
            button: if overlay.button is Some {
                overlay.button
            } else {
                self.button
            },
            default_width: if overlay.default_width is Some {
                overlay.default_width
            } else {
                self.default_width
            },
            dock: if overlay.dock is Some {
                overlay.dock
            } else {
                self.dock
            },
            indent_size: if overlay.indent_size is Some {
                overlay.indent_size
            } else {
                self.indent_size
            },
            auto_reveal_entries: if overlay.auto_reveal_entries is Some {
                overlay.auto_reveal_entries
            } else {
                self.auto_reveal_entries
            },
        }
    }

    pub fn merged(&self, overlay: &Self) -> (r: Self)
        ensures
            r == self.merged_spec(*overlay),
    {
        DatabasePanelSettingsContent {
            button: if overlay.button.is_some() {
                overlay.button
            } else {
                self.button
            },
            default_width: if overlay.default_width.is_some() {
                overlay.default_width
            } else {
                self.default_width
            },
            dock: if overlay.dock.is_some() {
                overlay.dock
            } else {
                self.dock
            },
            indent_size: if overlay.indent_size.is_some() {
                overlay.indent_size
            } else {
                self.indent_size
            },
            auto_reveal_entries: if overlay.auto_reveal_entries.is_some() {
                overlay.auto_reveal_entries
            } else {
                self.auto_reveal_entries
            },
        }
    }
}

impl DatabasePanelSettings {
    /// All overlay layers folded, left to right, onto the default layer.
    pub open spec fn merged_layers(
        default: DatabasePanelSettingsContent,
        overlays: Seq<DatabasePanelSettingsContent>,
    ) -> DatabasePanelSettingsContent
        decreases overlays.len(),
    {
        if overlays.len() == 0 {
            default
        } else {
            Self::merged_layers(default, overlays.drop_last()).merged_spec(overlays.last())
        }
    }

    /// Whether a merged layer sets every key the panel recognises.
    pub open spec fn complete(content: DatabasePanelSettingsContent) -> bool {
        &&& content.button is Some
        &&& content.default_width is Some
        &&& content.dock is Some
        &&& content.indent_size is Some
        &&& content.auto_reveal_entries is Some
    }

    /// The snapshot a complete merged layer denotes.
    pub open spec fn from_content_spec(content: DatabasePanelSettingsContent) -> DatabasePanelSettings
        recommends
            Self::complete(content),
    {
        DatabasePanelSettings {
            button: content.button->0,
            default_width: content.default_width->0,
            dock: content.dock->0,
            indent_size: content.indent_size->0,
            auto_reveal_entries: content.auto_reveal_entries->0,
        }
    }

    /// Mirrors the merge the settings subsystem performs over its layered
    /// sources: the default layer comes first, later layers override it key
    /// by key, and the result is a snapshot only when every key ends up set.
    /// Returns `None` exactly when the merged layers leave a key unset.
    pub fn load(
        default: &DatabasePanelSettingsContent,
        overlays: &Vec<DatabasePanelSettingsContent>,
    ) -> (r: Option<DatabasePanelSettings>)
        ensures
            r is Some <==> Self::complete(Self::merged_layers(*default, overlays@)),
            r matches Some(s) ==> s == Self::from_content_spec(
                Self::merged_layers(*default, overlays@),
            ),
    {
        let mut merged = *default;
        let mut i: usize = 0;
        while i < overlays.len()
            invariant
                i <= overlays.len(),
                merged == Self::merged_layers(*default, overlays@.take(i as int)),
            decreases overlays.len() - i,
        {
            proof {
                assert(overlays@.take(i + 1 as int).drop_last() == overlays@.take(i as int));
                assert(overlays@.take(i + 1 as int).last() == overlays@[i as int]);
            }
            merged = merged.merged(&overlays[i]);
            i = i + 1;
        }
        proof {
            assert(overlays@.take(overlays@.len() as int) == overlays@);
        }
        match (merged.button, merged.default_width, merged.dock) {
            (Some(button), Some(default_width), Some(dock)) => {
                match (merged.indent_size, merged.auto_reveal_entries) {
                    (Some(indent_size), Some(auto_reveal_entries)) => Some(
                        DatabasePanelSettings {
                            button,
                            default_width,
                            dock,
                            indent_size,
                            auto_reveal_entries,
                        },
                    ),
                    _ => None,
                }
            },
            _ => None,
        }
    }
}

} // verus!
