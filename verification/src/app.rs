//! The panel registry, the persisted layout state and its
//! reconciliation, and the shell that ties registry, file pipeline and
//! error queue together.
//!
//! Panels are owned by the host application and exposed to the shell
//! through [`BladvakPanel`]; the shell keeps only their persisted
//! placement, keyed by panel name.  Capability flags may depend on
//! live host state, so they are re-queried every frame through a fresh
//! [`PanelDescriptor`] snapshot rather than cached.

use vstd::prelude::*;

use crate::errors::{AppError, ErrorManager, ErrorQueueView, record_step};
use crate::file_handler::{File, FileHandler, FileState};
use crate::settings::{Settings, is_default_settings};

verus! {

/// The host application, as the shell sees it.  Rendering hooks live
/// with the host; the shell depends only on these plain-value queries
/// and on the file-ingestion hook.
pub trait BladvakApp: Sized {
    /// Ingests a fully acquired file.
    fn handle_file(&mut self, file: File) -> Result<(), AppError>;

    /// Whether the File menu offers an Open entry.
    fn is_open_button(&self) -> bool;

    /// Whether the host supports a side region at all.
    fn is_side_panel(&self) -> bool;

    /// Application name.
    fn name() -> String;

    /// Application version.
    fn version() -> String;

    /// Repository URL.
    fn repo_url() -> String;

    /// Window icon bytes.
    fn icon() -> &'static [u8];
}

/// A pluggable panel, as the shell sees it.  Both capability flags may
/// depend on live host state and are re-queried every frame.
pub trait BladvakPanel {
    /// Unique name of the panel; also its window title and its key in
    /// the persisted layout state.
    fn name(&self) -> String;

    /// Whether the panel currently offers a settings fragment.
    fn has_settings(&self) -> bool;

    /// Whether the panel currently offers a main view.
    fn has_ui(&self) -> bool;
}

/// One frame's snapshot of a panel's identity and capability flags.
#[derive(Debug, Clone)]
pub struct PanelDescriptor {
    /// Unique name of the panel.
    pub name: String,
    /// Whether the panel currently offers a settings fragment.
    pub has_settings: bool,
    /// Whether the panel currently offers a main view.
    pub has_ui: bool,
}

/// Takes one frame's snapshot of the registry: identity and capability
/// flags of every panel, in registry order.
pub fn descriptors_of<P: BladvakPanel>(panels: &Vec<P>) -> (r: Vec<PanelDescriptor>)
    ensures
        r@.len() == panels@.len(),
{
    let mut out: Vec<PanelDescriptor> = Vec::new();
    let mut i: usize = 0;
    while i < panels.len()
        invariant
            i <= panels@.len(),
            out@.len() == i,
        decreases panels@.len() - i,
    {
        let p = &panels[i];
        out.push(
            PanelDescriptor { name: p.name(), has_settings: p.has_settings(), has_ui: p.has_ui() },
        );
        i = i + 1;
    }
    out
}

/// A panel's current display mode.
#[derive(Debug, Clone, Copy, PartialEq, Eq, Structural)]
pub enum PanelOpen {
    /// A dismissible floating window.
    AsWindow,
    /// Embedded in the shared side region.
    AsSidebar,
    /// Not shown at all.
    Hidden,
}

/// Persisted per-panel display state.
#[derive(Debug, Clone, Copy, PartialEq, Eq, Structural)]
pub struct PanelState {
    /// The panel's display mode.
    pub open: PanelOpen,
}

impl Default for PanelState {
    /// A panel defaults to a floating window.
    fn default() -> (r: Self)
        ensures
            r.open == PanelOpen::AsWindow,
    {
        PanelState { open: PanelOpen::AsWindow }
    }
}

/// One persisted layout entry: a panel name and its display state.
#[derive(Debug, Clone)]
pub struct PanelEntry {
    /// The panel's unique name.
    pub name: String,
    /// The panel's persisted display state.
    pub state: PanelState,
}

/// The persisted layout state: one entry per registered panel, in
/// registry order, keyed by panel name.
#[derive(Debug, Clone)]
pub struct PanelLayoutState {
    /// The entries, one per panel.
    pub entries: Vec<PanelEntry>,
}

/// Index of the first entry carrying `name`, if any.
pub open spec fn find_entry(s: Seq<PanelEntry>, name: Seq<char>) -> Option<int>
    decreases s.len(),
{
    if s.len() == 0 {
        None
    } else if s[0].name@ == name {
        Some(0int)
    } else {
        match find_entry(s.drop_first(), name) {
            Option::None => None,
            Option::Some(i) => Some(i + 1),
        }
    }
}

/// The first matching index is what [`find_entry`] returns.
pub proof fn lemma_find_entry_at(s: Seq<PanelEntry>, name: Seq<char>, i: int)
    requires
        0 <= i < s.len(),
        s[i].name@ == name,
        forall|j: int| 0 <= j < i ==> (#[trigger] s[j]).name@ != name,
    ensures
        find_entry(s, name) == Some(i),
    decreases s.len(),
{
    if i > 0 {
        lemma_find_entry_at(s.drop_first(), name, i - 1);
    }
}

/// Without a matching name, [`find_entry`] misses.
pub proof fn lemma_find_entry_none(s: Seq<PanelEntry>, name: Seq<char>)
    requires
        forall|j: int| 0 <= j < s.len() ==> (#[trigger] s[j]).name@ != name,
    ensures
        find_entry(s, name) is None,
    decreases s.len(),
{
    if s.len() > 0 {
        lemma_find_entry_none(s.drop_first(), name);
    }
}

/// With a matching name present, [`find_entry`] finds one of them.
proof fn lemma_find_entry_some(s: Seq<PanelEntry>, name: Seq<char>)
    requires
        exists|j: int| 0 <= j < s.len() && (#[trigger] s[j]).name@ == name,
    ensures
        find_entry(s, name) matches Some(i) && 0 <= i < s.len() && s[i].name@ == name,
    decreases s.len(),
{
    if s.len() > 0 && s[0].name@ != name {
        let j = choose|j: int| 0 <= j < s.len() && (#[trigger] s[j]).name@ == name;
        assert(s.drop_first()[j - 1] == s[j]);
        lemma_find_entry_some(s.drop_first(), name);
    }
}

/// The layout invariant after a rebuild: a freshly defaulted layout
/// has an entry for every registered panel name, and looking any of
/// those names up yields the floating-window placement.
pub proof fn lemma_default_layout_covers(
    layout: PanelLayoutState,
    panels: Seq<PanelDescriptor>,
    i: int,
)
    requires
        layout.entries@.len() == panels.len(),
        forall|k: int|
            0 <= k < panels.len() ==> (#[trigger] layout.entries@[k]).name@ == panels[k].name@
                && layout.entries@[k].state.open == PanelOpen::AsWindow,
        0 <= i < panels.len(),
    ensures
        layout.spec_get(panels[i].name@) == Some(PanelOpen::AsWindow),
{
    assert(layout.entries@[i].name@ == panels[i].name@);
    lemma_find_entry_some(layout.entries@, panels[i].name@);
}

/// Whether the registry snapshot's panel names are pairwise distinct.
/// Panel names are the identity of spec'd panels, so a well-formed
/// registry has no two panels under one name.
pub open spec fn distinct_panel_names(panels: Seq<PanelDescriptor>) -> bool {
    forall|i: int, j: int|
        0 <= i < j < panels.len() ==> (#[trigger] panels[i]).name@ != (#[trigger] panels[j]).name@
}

impl PanelLayoutState {
    /// Well-formedness of the layout as a map keyed by panel name:
    /// entry names are pairwise distinct.
    pub open spec fn wf(self) -> bool {
        forall|i: int, j: int|
            0 <= i < j < self.entries@.len() ==> (#[trigger] self.entries@[i]).name@ != (
            #[trigger] self.entries@[j]).name@
    }

    /// The display mode stored for `name`: that of the first entry
    /// carrying the name, if any.
    pub open spec fn spec_get(self, name: Seq<char>) -> Option<PanelOpen> {
        match find_entry(self.entries@, name) {
            Option::None => None,
            Option::Some(i) => Some(self.entries@[i].state.open),
        }
    }

    /// Looks up the display mode stored for `name`; see
    /// [`Self::spec_get`].
    pub fn get_open(&self, name: &String) -> (r: Option<PanelOpen>)
        ensures
            r == self.spec_get(name@),
    {
        let mut i: usize = 0;
        while i < self.entries.len()
            invariant
                i <= self.entries@.len(),
                forall|j: int| 0 <= j < i ==> (#[trigger] self.entries@[j]).name@ != name@,
            decreases self.entries@.len() - i,
        {
            if self.entries[i].name == *name {
                proof {
                    lemma_find_entry_at(self.entries@, name@, i as int);
                }
                return Some(self.entries[i].state.open);
            }
            i = i + 1;
        }
        proof {
            lemma_find_entry_none(self.entries@, name@);
        }
        None
    }

    /// Stores `open` as the display mode of the panel named `name`;
    /// without an entry for the name, nothing changes.
    pub fn set_open(&mut self, name: &String, open: PanelOpen)
        ensures
            match find_entry(old(self).entries@, name@) {
                Option::None => final(self).entries@ == old(self).entries@,
                Option::Some(i) => final(self).entries@ == old(self).entries@.update(
                    i,
                    (PanelEntry { name: old(self).entries@[i].name, state: (PanelState { open }) }),
                ),
            },
            old(self).spec_get(name@) is Some ==> final(self).spec_get(name@) == Some(open),
            old(self).spec_get(name@) is None ==> final(self).entries@ == old(self).entries@,
            old(self).wf() ==> final(self).wf(),
    {
        let mut i: usize = 0;
        while i < self.entries.len()
            invariant
                i <= self.entries@.len(),
                self.entries@ == old(self).entries@,
                forall|j: int| 0 <= j < i ==> (#[trigger] self.entries@[j]).name@ != name@,
            decreases self.entries@.len() - i,
        {
            if self.entries[i].name == *name {
                proof {
                    lemma_find_entry_at(old(self).entries@, name@, i as int);
                }
                self.entries[i].state = PanelState { open };
                proof {
                    assert(self.entries@ == old(self).entries@.update(
                        i as int,
                        (PanelEntry {
                            name: old(self).entries@[i as int].name,
                            state: (PanelState { open }),
                        }),
                    ));
                    assert(forall|j: int|
                        0 <= j < i ==> (#[trigger] self.entries@[j]).name@ != name@);
                    lemma_find_entry_at(self.entries@, name@, i as int);
                }
                return;
            }
            i = i + 1;
        }
        proof {
            lemma_find_entry_none(self.entries@, name@);
        }
    }

    /// The user closed a panel's floating window: the panel is demoted
    /// to the side region — never hidden — so its content stays
    /// reachable.
    pub fn close_floating_panel(&mut self, name: &String)
        ensures
            match find_entry(old(self).entries@, name@) {
                Option::None => final(self).entries@ == old(self).entries@,
                Option::Some(i) => final(self).entries@ == old(self).entries@.update(
                    i,
                    (PanelEntry {
                        name: old(self).entries@[i].name,
                        state: (PanelState { open: PanelOpen::AsSidebar }),
                    }),
                ),
            },
            old(self).spec_get(name@) is Some ==> final(self).spec_get(name@) == Some(
                PanelOpen::AsSidebar,
            ),
            old(self).wf() ==> final(self).wf(),
    {
        self.set_open(name, PanelOpen::AsSidebar);
    }

    /// Whether any panel currently sits in the side region; the side
    /// region is shown at all only if this holds.
    pub fn any_panel_in_sidebar(&self) -> (r: bool)
        ensures
            r == exists|i: int|
                0 <= i < self.entries@.len() && (#[trigger] self.entries@[i]).state.open
                    == PanelOpen::AsSidebar,
    {
        let mut i: usize = 0;
        while i < self.entries.len()
            invariant
                i <= self.entries@.len(),
                forall|j: int|
                    0 <= j < i ==> (#[trigger] self.entries@[j]).state.open != PanelOpen::AsSidebar,
            decreases self.entries@.len() - i,
        {
            if self.entries[i].state.open == PanelOpen::AsSidebar {
                return true;
            }
            i = i + 1;
        }
        false
    }
}

/// A fresh layout for the given registry snapshot: one entry per
/// panel, in registry order, every panel defaulted to a floating
/// window.
pub fn fresh_default_layout(panels: &Vec<PanelDescriptor>) -> (r: PanelLayoutState)
    ensures
        r.entries@.len() == panels@.len(),
        forall|i: int|
            0 <= i < panels@.len() ==> (#[trigger] r.entries@[i]).name@ == panels@[i].name@
                && r.entries@[i].state.open == PanelOpen::AsWindow,
        distinct_panel_names(panels@) ==> r.wf(),
{
    let mut entries: Vec<PanelEntry> = Vec::new();
    let mut i: usize = 0;
    while i < panels.len()
        invariant
            i <= panels@.len(),
            entries@.len() == i,
            forall|j: int|
                0 <= j < i ==> (#[trigger] entries@[j]).name@ == panels@[j].name@
                    && entries@[j].state.open == PanelOpen::AsWindow,
        decreases panels@.len() - i,
    {
        entries.push(
            PanelEntry { name: panels[i].name.clone(), state: PanelState { open: PanelOpen::AsWindow } },
        );
        i = i + 1;
    }
    PanelLayoutState { entries }
}

/// Reconciles a persisted layout against the freshly built registry:
/// a persisted map whose entry count equals the fresh panel count is
/// reused verbatim; any other persisted map — or none — is discarded
/// and every panel defaults to a floating window.
pub fn reconcile_layout(saved: Option<PanelLayoutState>, panels: &Vec<PanelDescriptor>) -> (r:
    PanelLayoutState)
    ensures
        saved matches Some(s) ==> (s.entries@.len() == panels@.len() ==> r == s),
        (match saved {
            Option::None => true,
            Option::Some(s) => s.entries@.len() != panels@.len(),
        }) ==> r.entries@.len() == panels@.len() && (forall|i: int|
            0 <= i < panels@.len() ==> (#[trigger] r.entries@[i]).name@ == panels@[i].name@
                && r.entries@[i].state.open == PanelOpen::AsWindow) && (distinct_panel_names(
            panels@,
        ) ==> r.wf()),
{
    match saved {
        Some(s) => {
            if s.entries.len() == panels.len() {
                s
            } else {
                fresh_default_layout(panels)
            }
        },
        None => fresh_default_layout(panels),
    }
}

/// Names of the panels that currently have a UI and sit in the given
/// display mode, in registry order.
pub open spec fn placed_names(
    panels: Seq<PanelDescriptor>,
    layout: PanelLayoutState,
    placement: PanelOpen,
) -> Seq<Seq<char>>
    decreases panels.len(),
{
    if panels.len() == 0 {
        Seq::empty()
    } else {
        let rest = placed_names(panels.drop_last(), layout, placement);
        let p = panels.last();
        if p.has_ui && layout.spec_get(p.name@) == Some(placement) {
            rest.push(p.name@)
        } else {
            rest
        }
    }
}

/// The panels to render in the given display mode this frame: those
/// with a UI whose stored placement matches, in registry order.  The
/// central region renders one floating window per
/// [`PanelOpen::AsWindow`] name; the side region renders the
/// [`PanelOpen::AsSidebar`] names in order, visually separated.
pub fn panels_with_placement(
    panels: &Vec<PanelDescriptor>,
    layout: &PanelLayoutState,
    placement: PanelOpen,
) -> (r: Vec<String>)
    ensures
        r@.len() == placed_names(panels@, *layout, placement).len(),
        forall|i: int|
            0 <= i < r@.len() ==> (#[trigger] r@[i])@ == placed_names(panels@, *layout, placement)[i],
{
    let mut out: Vec<String> = Vec::new();
    let mut i: usize = 0;
    while i < panels.len()
        invariant
            i <= panels@.len(),
            out@.len() == placed_names(panels@.take(i as int), *layout, placement).len(),
            forall|j: int|
                0 <= j < out@.len() ==> (#[trigger] out@[j])@ == placed_names(
                    panels@.take(i as int),
                    *layout,
                    placement,
                )[j],
        decreases panels@.len() - i,
    {
        proof {
            assert(panels@.take(i + 1).drop_last() =~= panels@.take(i as int));
            assert(panels@.take(i + 1).last() == panels@[i as int]);
        }
        if panels[i].has_ui {
            let stored = layout.get_open(&panels[i].name);
            match stored {
                Some(o) => {
                    if o == placement {
                        out.push(panels[i].name.clone());
                    }
                },
                None => {},
            }
        }
        i = i + 1;
    }
    proof {
        assert(panels@.take(panels@.len() as int) =~= panels@);
    }
    out
}

/// The shell's persisted state: its settings and the panel layout map,
/// serialized as one record around the host's own state.
#[derive(Debug, Clone)]
pub struct BladvakSavedState {
    /// Shell-level settings.
    pub settings: Settings,
    /// The persisted panel layout.
    pub panel_state: PanelLayoutState,
}

/// The shell: the host application plus the state the shell owns for
/// it — persisted settings and layout, the error queue, and the file
/// acquisition pipeline.  All of it is mutated only on the UI thread.
#[derive(Debug)]
pub struct Bladvak<A> {
    /// The host application.
    pub app: A,
    /// The shell's persisted state.
    pub internal: BladvakSavedState,
    /// The error queue and its overlay flags.
    pub error_manager: ErrorManager,
    /// The file acquisition pipeline.
    pub file_handler: FileHandler,
}

impl<A: BladvakApp> Bladvak<A> {
    /// Builds the shell around a constructed host application,
    /// reconciling the persisted state (if any) against the freshly
    /// built registry snapshot: a persisted record whose layout entry
    /// count equals the fresh panel count is reused verbatim;
    /// otherwise the whole record is discarded, settings reset, and
    /// every panel defaults to a floating window.
    pub fn new_shell(app: A, saved: Option<BladvakSavedState>, panels: &Vec<PanelDescriptor>) -> (r:
        Self)
        ensures
            r.app == app,
            saved matches Some(st) ==> (st.panel_state.entries@.len() == panels@.len()
                ==> r.internal == st),
            (match saved {
                Option::None => true,
                Option::Some(st) => st.panel_state.entries@.len() != panels@.len(),
            }) ==> is_default_settings(r.internal.settings)
                && r.internal.panel_state.entries@.len() == panels@.len() && (forall|i: int|
                0 <= i < panels@.len() ==> (#[trigger] r.internal.panel_state.entries@[i]).name@
                    == panels@[i].name@ && r.internal.panel_state.entries@[i].state.open
                    == PanelOpen::AsWindow) && (distinct_panel_names(panels@)
                ==> r.internal.panel_state.wf()),
            r.error_manager@ == (ErrorQueueView {
                errors: Seq::<AppError>::empty(),
                is_open: false,
                was_open: false,
            }),
            !r.file_handler.upload_pending,
            r.file_handler.dropped_files@.len() == 0,
    {
        let internal = match saved {
            Some(st) => {
                if st.panel_state.entries.len() == panels.len() {
                    st
                } else {
                    BladvakSavedState {
                        settings: Settings::default(),
                        panel_state: fresh_default_layout(panels),
                    }
                }
            },
            None => {
                BladvakSavedState {
                    settings: Settings::default(),
                    panel_state: fresh_default_layout(panels),
                }
            },
        };
        Bladvak {
            app,
            internal,
            error_manager: ErrorManager::new(),
            file_handler: FileHandler {
                dropped_files: Vec::new(),
                upload_pending: false,
            },
        }
    }

    /// One per-frame pump of the file pipeline, with its result routed
    /// as the shell routes it: a delivered file is handed back to be
    /// ingested, a pipeline error goes to the error queue, and an
    /// unresolved or idle pipeline does nothing.  The overlay flags
    /// are never touched here.
    pub fn pump_files(
        &mut self,
        obs: Option<Result<FileState, AppError>>,
        drop_read: Option<Result<Vec<u8>, AppError>>,
    ) -> (r: Option<File>)
        requires
            drop_read is Some <==> old(self).file_handler.drop_read_request(obs) is Some,
        ensures
            final(self).file_handler.upload_pending <==> (old(self).file_handler.upload_outcome(obs)
                matches Ok(FileState::UploadedOrSelected)),
            // a failed dialog read is recorded, nothing is delivered
            old(self).file_handler.upload_outcome(obs) matches Err(e) ==> r is None && final(self).error_manager@ == record_step(old(self).error_manager@, e) && final(self).file_handler.dropped_files@ == old(self).file_handler.dropped_files@,
            // an unresolved dialog request: no delivery, nothing recorded
            old(self).file_handler.upload_outcome(obs) matches Ok(FileState::UploadedOrSelected)
                ==> r is None && final(self).error_manager == old(self).error_manager && final(self).file_handler.dropped_files@ == old(self).file_handler.dropped_files@,
            // dialog priority: a ready dialog result is delivered and a
            // pending drop stays queued
            old(self).file_handler.upload_outcome(obs) matches Ok(FileState::Ready(f)) ==> r
                == Some(f) && final(self).error_manager == old(self).error_manager && final(self).file_handler.dropped_files@ == old(self).file_handler.dropped_files@,
            // no dialog claim and no queued drop: a no-op
            old(self).file_handler.proceeds_to_drops(obs) && old(self).file_handler.dropped_files@.len() == 0 ==> r is None && final(self).error_manager
                == old(self).error_manager && final(self).file_handler.dropped_files@ == old(self).file_handler.dropped_files@,
            // no dialog claim: the first dropped file is consumed and
            // any additional simultaneously-dropped files are discarded
            old(self).file_handler.proceeds_to_drops(obs) && old(self).file_handler.dropped_files@.len() > 0 ==> final(self).file_handler.dropped_files@.len()
                == 0 && ({
                let head = old(self).file_handler.dropped_files@[0];
                &&& head.bytes matches Some(b) ==> r == Some(
                    (File {
                        data: b,
                        path: if head.path is Some {
                            head.path->0
                        } else {
                            head.name
                        },
                    }),
                ) && final(self).error_manager == old(self).error_manager
                &&& head.bytes is None && head.path is Some ==> {
                    &&& drop_read matches Some(Ok(b)) ==> r == Some(
                        (File { data: b, path: head.path->0 }),
                    ) && final(self).error_manager == old(self).error_manager
                    &&& drop_read matches Some(Err(e)) ==> r is None && final(self).error_manager@
                        == record_step(old(self).error_manager@, e)
                }
                &&& head.bytes is None && head.path is None ==> r is None && final(self).error_manager == old(self).error_manager
            }),
            // neither the host application nor its persisted state is
            // touched by the pump: the file hook is not called here
            final(self).app == old(self).app,
            final(self).internal == old(self).internal,
    {
        let polled = self.file_handler.handle_files(obs, drop_read);
        match polled {
            Ok(Some(file)) => Some(file),
            Ok(None) => None,
            Err(e) => {
                self.error_manager.add_error(e);
                None
            },
        }
    }

    /// Hands a delivered file to the host's ingestion hook and records
    /// any error the host reports.  Returns whether a repaint should
    /// be requested: always, so a delivered file becomes visible
    /// without waiting for the next input event.
    pub fn deliver_file(&mut self, file: File) -> (repaint: bool)
        ensures
            repaint,
            final(self).internal == old(self).internal,
            final(self).file_handler == old(self).file_handler,
            // the queue is unchanged (the host accepted the file, or
            // reported a transient outcome) or exactly the one record
            // the host reported was appended; the overlay flags are
            // never touched here
            final(self).error_manager@ == old(self).error_manager@ || (exists|e: AppError|
                !e.is_transient && final(self).error_manager@ == record_step(
                    old(self).error_manager@,
                    e,
                )),
            final(self).error_manager@.is_open == old(self).error_manager@.is_open,
            final(self).error_manager@.was_open == old(self).error_manager@.was_open,
    {
        let outcome = self.app.handle_file(file);
        match outcome {
            Ok(_) => {},
            Err(e) => {
                let ghost reported = e;
                self.error_manager.add_error(e);
                proof {
                    if !reported.is_transient {
                        assert(self.error_manager@ == record_step(
                            old(self).error_manager@,
                            reported,
                        ));
                    }
                }
            },
        }
        true
    }
}

} // verus!
