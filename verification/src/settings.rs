//! The settings navigation overlay: a modal with a left-hand list of
//! sections (General, the panel-layout page, or one section per panel
//! that offers settings) and a transient cursor for the current
//! selection.
//!
//! The cursor is not persisted semantics-wise: it is retained across
//! opens and closes within a session, and closing the modal only
//! clears the open flag.

use vstd::prelude::*;

use crate::app::{PanelDescriptor, PanelEntry, PanelLayoutState, PanelOpen, PanelState};

verus! {

/// The section currently selected in the settings navigation list.
#[derive(Debug, Clone)]
pub enum SelectedSetting {
    /// Process-wide actions and identity display.
    General,
    /// The per-panel placement selectors.
    Panel,
    /// The settings fragment of the named panel.
    Named(String),
}

/// Shell-level settings, persisted across restarts.
#[derive(Debug, Clone)]
pub struct Settings {
    /// Whether the settings modal is open.
    pub open: bool,
    /// Minimum width of the side region, in logical points.
    pub min_width_sidebar: u32,
    /// Whether the side region is enabled at all.
    pub right_panel: bool,
    /// Whether the debug/inspection overlay is shown.
    pub show_inspection: bool,
    /// The section currently selected in the navigation list.
    pub selected_setting: SelectedSetting,
}

/// The settings a shell starts from when nothing was persisted (or the
/// persisted state was discarded).
pub open spec fn is_default_settings(s: Settings) -> bool {
    &&& !s.open
    &&& s.min_width_sidebar == 200
    &&& s.right_panel
    &&& !s.show_inspection
    &&& s.selected_setting is General
}

impl Default for Settings {
    /// Modal closed, side region enabled, 200-point sidebar minimum,
    /// no inspection overlay, cursor on General.
    fn default() -> (r: Self)
        ensures
            is_default_settings(r),
    {
        Settings {
            open: false,
            min_width_sidebar: 200,
            right_panel: true,
            show_inspection: false,
            selected_setting: SelectedSetting::General,
        }
    }
}

impl Settings {
    /// Opens the settings modal; the selection cursor is untouched.
    pub fn open_settings(&mut self)
        ensures
            final(self).open,
            final(self).min_width_sidebar == old(self).min_width_sidebar,
            final(self).right_panel == old(self).right_panel,
            final(self).show_inspection == old(self).show_inspection,
            final(self).selected_setting == old(self).selected_setting,
    {
        self.open = true;
    }

    /// Closes the settings modal.  The selection cursor is retained
    /// across closes and reopens within a session.
    pub fn close_settings(&mut self)
        ensures
            !final(self).open,
            final(self).min_width_sidebar == old(self).min_width_sidebar,
            final(self).right_panel == old(self).right_panel,
            final(self).show_inspection == old(self).show_inspection,
            final(self).selected_setting == old(self).selected_setting,
    {
        self.open = false;
    }

    /// Moves the selection cursor.
    pub fn select_setting(&mut self, selected: SelectedSetting)
        ensures
            final(self).selected_setting == selected,
            final(self).open == old(self).open,
            final(self).min_width_sidebar == old(self).min_width_sidebar,
            final(self).right_panel == old(self).right_panel,
            final(self).show_inspection == old(self).show_inspection,
    {
        self.selected_setting = selected;
    }
}

/// Names of the panels that currently offer a settings fragment, in
/// registry order.
pub open spec fn settings_nav_names(panels: Seq<PanelDescriptor>) -> Seq<Seq<char>>
    decreases panels.len(),
{
    if panels.len() == 0 {
        Seq::empty()
    } else {
        let rest = settings_nav_names(panels.drop_last());
        if panels.last().has_settings {
            rest.push(panels.last().name@)
        } else {
            rest
        }
    }
}

/// Builds the left navigation list of the settings modal: the fixed
/// entries General and the panel-layout page, followed by one entry
/// per panel currently reporting settings, in registry order.
/// Capability flags are dynamic, so the list is rebuilt every frame
/// from a fresh registry snapshot.
pub fn settings_nav(panels: &Vec<PanelDescriptor>) -> (r: Vec<SelectedSetting>)
    ensures
        r@.len() == settings_nav_names(panels@).len() + 2,
        r@[0] is General,
        r@[1] is Panel,
        forall|i: int|
            0 <= i < settings_nav_names(panels@).len() ==> ((#[trigger] r@[i + 2]) matches SelectedSetting::Named(n)
                && n@ == settings_nav_names(panels@)[i]),
{
    let mut out: Vec<SelectedSetting> = Vec::new();
    out.push(SelectedSetting::General);
    out.push(SelectedSetting::Panel);
    let mut i: usize = 0;
    while i < panels.len()
        invariant
            i <= panels@.len(),
            out@.len() == settings_nav_names(panels@.take(i as int)).len() + 2,
            out@[0] is General,
            out@[1] is Panel,
            forall|j: int|
                0 <= j < settings_nav_names(panels@.take(i as int)).len() ==> ((#[trigger] out@[j + 2]) matches SelectedSetting::Named(n)
                    && n@ == settings_nav_names(panels@.take(i as int))[j]),
        decreases panels@.len() - i,
    {
        proof {
            assert(panels@.take(i + 1).drop_last() =~= panels@.take(i as int));
            assert(panels@.take(i + 1).last() == panels@[i as int]);
        }
        if panels[i].has_settings {
            out.push(SelectedSetting::Named(panels[i].name.clone()));
        }
        i = i + 1;
    }
    proof {
        assert(panels@.take(panels@.len() as int) =~= panels@);
    }
    out
}

/// Whether some panel in the registry snapshot both has a UI and
/// carries this name.
pub open spec fn has_ui_panel(panels: Seq<PanelDescriptor>, name: Seq<char>) -> bool {
    exists|j: int| 0 <= j < panels.len() && (#[trigger] panels[j]).has_ui && panels[j].name@ == name
}

/// Looks for a panel with a UI under the given name; see
/// [`has_ui_panel`].
pub fn has_ui_panel_named(panels: &Vec<PanelDescriptor>, name: &String) -> (r: bool)
    ensures
        r == has_ui_panel(panels@, name@),
{
    let mut i: usize = 0;
    while i < panels.len()
        invariant
            i <= panels@.len(),
            forall|j: int| 0 <= j < i ==> !((#[trigger] panels@[j]).has_ui && panels@[j].name@ == name@),
        decreases panels@.len() - i,
    {
        if panels[i].has_ui && panels[i].name == *name {
            return true;
        }
        i = i + 1;
    }
    false
}

/// The placement page offers the sidebar placement only while the host
/// supports a side region at all; when it does not, every panel with a
/// UI that still sits in the sidebar is coerced to hidden.  With the
/// side region supported, nothing changes.
pub fn apply_sidebar_support(
    layout: &mut PanelLayoutState,
    panels: &Vec<PanelDescriptor>,
    sidebar_supported: bool,
)
    ensures
        old(layout).wf() ==> final(layout).wf(),
        sidebar_supported ==> final(layout).entries@ == old(layout).entries@,
        !sidebar_supported ==> final(layout).entries@.len() == old(layout).entries@.len() && forall|i: int|
            0 <= i < old(layout).entries@.len() ==> (#[trigger] final(layout).entries@[i]) == (
            if old(layout).entries@[i].state.open == PanelOpen::AsSidebar && has_ui_panel(
                panels@,
                old(layout).entries@[i].name@,
            ) {
                PanelEntry { name: old(layout).entries@[i].name, state: (PanelState { open: PanelOpen::Hidden }) }
            } else {
                old(layout).entries@[i]
            }),
{
    if sidebar_supported {
        return;
    }
    let mut i: usize = 0;
    while i < layout.entries.len()
        invariant
            i <= layout.entries@.len(),
            layout.entries@.len() == old(layout).entries@.len(),
            forall|j: int|
                i <= j < layout.entries@.len() ==> (#[trigger] layout.entries@[j]) == old(layout).entries@[j],
            forall|j: int|
                0 <= j < i ==> (#[trigger] layout.entries@[j]) == (
                if old(layout).entries@[j].state.open == PanelOpen::AsSidebar && has_ui_panel(
                    panels@,
                    old(layout).entries@[j].name@,
                ) {
                    PanelEntry { name: old(layout).entries@[j].name, state: (PanelState { open: PanelOpen::Hidden }) }
                } else {
                    old(layout).entries@[j]
                }),
        decreases layout.entries@.len() - i,
    {
        let in_sidebar = layout.entries[i].state.open == PanelOpen::AsSidebar;
        if in_sidebar && has_ui_panel_named(panels, &layout.entries[i].name) {
            layout.entries[i].state = PanelState { open: PanelOpen::Hidden };
        }
        i = i + 1;
    }
}

} // verus!
