//! The application controller: one state machine owning the catalog, the
//! two template panes, the filter box, the task bar and the active popup.
//! Every input event is routed here; the controller mutates its state and
//! answers with the one effect it cannot perform itself — fetching the
//! merged template text. The caller runs the fetch and the file write and
//! reports their outcomes back through the save functions.

use vstd::prelude::*;
use crate::catalog::{
    available_pred,
    catalog_has,
    catalog_wf,
    entry_with_name,
    lemma_filtered_props,
    selected_pred,
    spec_apply_filter,
    spec_available,
    spec_selected,
    spec_toggle,
    Catalog,
    TemplateView,
    MAX_ITEMS,
};
use crate::filter::Filter;
use crate::geom::{
    calculate_frames,
    is_in_rect,
    spec_calculate_frames,
    FrameSet,
    Rect,
};
use crate::input::{Event, KeyCode, KeyEvent, MouseButton, MouseEvent, MouseKind};
use crate::save_option::{
    spec_save_frames,
    spec_save_hit,
    spec_save_key,
    SaveFrameSet,
    SaveOption,
    SaveOptions,
};
use crate::task_bar::{spec_hit_test, spec_start, TaskActionView, TaskBar};
use crate::template_list::{
    spec_pane_key,
    spec_pane_mouse,
    spec_set_templates,
    PaneView,
    TemplateList,
};
use crate::text::{spec_to_lower, to_ascii_lower};

verus! {

/// The modal overlay that is up, if any, as the specifications see it.
#[verifier::ext_equal]
pub ghost enum PopupView {
    Error(Seq<char>),
    Help,
    About,
    SaveDecision,
}

/// The modal overlay that is up, if any: at most one at a time.
#[derive(Debug)]
pub enum PopupFlag {
    Error(String),
    Help,
    About,
    SaveOption,
}

impl View for PopupFlag {
    type V = PopupView;

    open spec fn view(&self) -> PopupView {
        match self {
            PopupFlag::Error(msg) => PopupView::Error(msg@),
            PopupFlag::Help => PopupView::Help,
            PopupFlag::About => PopupView::About,
            PopupFlag::SaveOption => PopupView::SaveDecision,
        }
    }
}

pub open spec fn popup_view(p: &Option<PopupFlag>) -> Option<PopupView> {
    match p {
        Some(flag) => Some(flag@),
        None => None,
    }
}

/// What the caller must do after an event was handled: nothing, or fetch
/// the merged text of these templates and report back.
#[derive(Debug)]
pub enum UiEffect {
    Nothing,
    FetchTemplates(Vec<String>),
}

/// An effect as the specifications see it.
#[verifier::ext_equal]
pub ghost enum EffectView {
    Nothing,
    Fetch(Seq<Seq<char>>),
}

impl View for UiEffect {
    type V = EffectView;

    open spec fn view(&self) -> EffectView {
        match self {
            UiEffect::Nothing => EffectView::Nothing,
            UiEffect::FetchTemplates(names) => EffectView::Fetch(names.deep_view()),
        }
    }
}

/// How the output file is to be opened once the text is fetched.
#[derive(Clone, Copy, Debug, PartialEq, Eq, Structural)]
pub enum WriteMode {
    Create,
    Replace,
    Append,
}

/// The whole application state as the specifications see it.
#[verifier::ext_equal]
pub ghost struct AppView {
    pub should_quit: bool,
    pub catalog: Seq<TemplateView>,
    pub filter: Seq<char>,
    pub available_pane: PaneView,
    pub selected_pane: PaneView,
    pub task_bar: Seq<TaskActionView>,
    pub save_option: SaveFrameSet,
    pub save_option_flag: Option<bool>,
    pub popup: Option<PopupView>,
    pub frame_set: FrameSet,
}

/// Well-formedness of the whole application: the catalog is sorted and
/// bounded, both panes are well-formed and hold exactly the two derived
/// lists, at most one pane has focus, and the task bar fits its row.
pub open spec fn app_wf(a: AppView) -> bool {
    &&& catalog_wf(a.catalog)
    &&& a.available_pane.wf()
    &&& a.selected_pane.wf()
    &&& a.available_pane.templates == spec_available(a.catalog)
    &&& a.selected_pane.templates == spec_selected(a.catalog)
    &&& !(a.available_pane.has_focus && a.selected_pane.has_focus)
    &&& spec_start(a.task_bar, a.task_bar.len() as int) <= u16::MAX
}

/// The quit shortcut: Ctrl+Q, honoured in every state.
pub open spec fn spec_quit_key(k: KeyEvent) -> bool {
    k.code == KeyCode::Char('q') && k.ctrl
}

/// Recomputing the derived lists and pushing them into the panes.
pub open spec fn spec_recompute(a: AppView) -> AppView {
    AppView {
        available_pane: spec_set_templates(a.available_pane, spec_available(a.catalog)),
        selected_pane: spec_set_templates(a.selected_pane, spec_selected(a.catalog)),
        ..a
    }
}

/// Toggling a template's selection flag and recomputing the lists.
pub open spec fn spec_toggle_selection(a: AppView, name: Seq<char>) -> AppView {
    spec_recompute(AppView { catalog: spec_toggle(a.catalog, name), ..a })
}

/// Re-deriving every entry's visibility from the filter text and
/// recomputing the lists.
pub open spec fn spec_apply_filter_app(a: AppView) -> AppView {
    spec_recompute(AppView { catalog: spec_apply_filter(a.catalog, a.filter), ..a })
}

pub open spec fn spec_focus_available(a: AppView) -> AppView {
    if !a.available_pane.has_focus {
        AppView {
            available_pane: PaneView { has_focus: true, ..a.available_pane },
            selected_pane: PaneView { has_focus: false, ..a.selected_pane },
            ..a
        }
    } else {
        a
    }
}

pub open spec fn spec_focus_selected(a: AppView) -> AppView {
    if !a.selected_pane.has_focus {
        AppView {
            available_pane: PaneView { has_focus: false, ..a.available_pane },
            selected_pane: PaneView { has_focus: true, ..a.selected_pane },
            ..a
        }
    } else {
        a
    }
}

/// Tab moves the focus to the other pane.
pub open spec fn spec_toggle_focus(a: AppView) -> AppView {
    if a.available_pane.has_focus {
        spec_focus_selected(a)
    } else {
        spec_focus_available(a)
    }
}

/// Forwarding a key to the focused pane; a chosen template toggles its
/// selection.
pub open spec fn spec_pane_dispatch_key(a: AppView, k: KeyEvent) -> AppView {
    if a.available_pane.has_focus {
        let r = spec_pane_key(a.available_pane, k);
        let a1 = AppView { available_pane: r.0, ..a };
        match r.1 {
            Some(name) => spec_toggle_selection(a1, name),
            None => a1,
        }
    } else {
        let r = spec_pane_key(a.selected_pane, k);
        let a1 = AppView { selected_pane: r.0, ..a };
        match r.1 {
            Some(name) => spec_toggle_selection(a1, name),
            None => a1,
        }
    }
}

/// Forwarding a mouse event to the focused pane; a chosen template toggles
/// its selection.
pub open spec fn spec_pane_dispatch_mouse_focused(a: AppView, m: MouseEvent) -> AppView {
    if a.available_pane.has_focus {
        let r = spec_pane_mouse(a.available_pane, m);
        let a1 = AppView { available_pane: r.0, ..a };
        match r.1 {
            Some(name) => spec_toggle_selection(a1, name),
            None => a1,
        }
    } else if a.selected_pane.has_focus {
        let r = spec_pane_mouse(a.selected_pane, m);
        let a1 = AppView { selected_pane: r.0, ..a };
        match r.1 {
            Some(name) => spec_toggle_selection(a1, name),
            None => a1,
        }
    } else {
        a
    }
}

/// The message shown when saving with nothing selected.
pub open spec fn spec_empty_selection_msg() -> Seq<char> {
    "Select one or more templates and try again."@
}

/// Starting the save routine: with nothing selected it shows the error
/// popup and asks for nothing; otherwise it asks the caller to fetch the
/// merged text of the selected templates.
pub open spec fn spec_begin_save(a: AppView) -> (AppView, EffectView) {
    let sel = spec_selected(a.catalog);
    if sel.len() == 0 {
        (
            AppView { popup: Some(PopupView::Error(spec_empty_selection_msg())), ..a },
            EffectView::Nothing,
        )
    } else {
        (a, EffectView::Fetch(sel))
    }
}

/// A choice made in the save-decision popup: Replace and Append remember
/// the sticky flag, close the popup and re-enter the save routine; Cancel
/// just closes it.
pub open spec fn spec_handle_save_option(a: AppView, opt: SaveOptions) -> (AppView, EffectView) {
    match opt {
        SaveOptions::Replace => spec_begin_save(
            AppView { save_option_flag: Some(true), popup: None, ..a },
        ),
        SaveOptions::Append => spec_begin_save(
            AppView { save_option_flag: Some(false), popup: None, ..a },
        ),
        SaveOptions::Cancel => (AppView { popup: None, ..a }, EffectView::Nothing),
    }
}

/// After the fetch succeeded: how to open the file. A missing file is
/// created; an existing one needs the sticky flag — when it is unset the
/// save-decision popup opens instead and nothing is written yet.
pub open spec fn spec_save_fetched(a: AppView, file_exists: bool) -> (AppView, Option<WriteMode>) {
    if !file_exists {
        (a, Some(WriteMode::Create))
    } else {
        match a.save_option_flag {
            None => (AppView { popup: Some(PopupView::SaveDecision), ..a }, None),
            Some(true) => (AppView { save_option_flag: None, ..a }, Some(WriteMode::Replace)),
            Some(false) => (AppView { save_option_flag: None, ..a }, Some(WriteMode::Append)),
        }
    }
}

/// The confirmation printed after a successful write.
pub open spec fn spec_save_message(mode: WriteMode) -> Seq<char> {
    match mode {
        WriteMode::Create => "Created new .gitingore file."@,
        WriteMode::Replace => "Replaced contents of existing .gitignore file."@,
        WriteMode::Append => "Appended templates to existing .gitignore file."@,
    }
}

/// The error message shown when the fetch failed.
pub open spec fn spec_fetch_error_msg(names: Seq<Seq<char>>, detail: Seq<char>) -> Seq<char> {
    "Problem getting .gitignore for \""@ + crate::api::spec_join(names, " "@) + "\": "@ + detail
}

/// Clearing a dismissable popup: Error, Help and About go away on any
/// input, which is then swallowed; the save-decision popup stays.
pub open spec fn spec_maybe_clear_popup(a: AppView) -> (AppView, bool) {
    match a.popup {
        Some(PopupView::Error(_)) | Some(PopupView::Help) | Some(PopupView::About) => (
            AppView { popup: None, ..a },
            true,
        ),
        Some(PopupView::SaveDecision) => (a, false),
        None => (a, false),
    }
}

/// What one key press does to the whole application.
pub open spec fn spec_key_step(a: AppView, k: KeyEvent) -> (AppView, EffectView) {
    if spec_quit_key(k) {
        (AppView { should_quit: true, ..a }, EffectView::Nothing)
    } else if a.popup == Some(PopupView::SaveDecision) {
        match k.code {
            KeyCode::Esc => (AppView { popup: None, ..a }, EffectView::Nothing),
            KeyCode::Char(ch) => match spec_save_key(ch) {
                Some(opt) => spec_handle_save_option(a, opt),
                None => (a, EffectView::Nothing),
            },
            _ => (a, EffectView::Nothing),
        }
    } else if a.popup is Some {
        (AppView { popup: None, ..a }, EffectView::Nothing)
    } else {
        match k.code {
            KeyCode::Tab => (spec_toggle_focus(a), EffectView::Nothing),
            KeyCode::Enter | KeyCode::Home | KeyCode::PageUp | KeyCode::Up | KeyCode::End
                | KeyCode::PageDown | KeyCode::Down => (
                spec_pane_dispatch_key(a, k),
                EffectView::Nothing,
            ),
            KeyCode::Esc | KeyCode::Delete => (
                spec_apply_filter_app(AppView { filter: Seq::empty(), ..a }),
                EffectView::Nothing,
            ),
            KeyCode::Backspace => (
                spec_apply_filter_app(
                    AppView {
                        filter: if a.filter.len() == 0 {
                            a.filter
                        } else {
                            a.filter.drop_last()
                        },
                        ..a
                    },
                ),
                EffectView::Nothing,
            ),
            KeyCode::F(n) => if n == 1 {
                (AppView { popup: Some(PopupView::Help), ..a }, EffectView::Nothing)
            } else {
                (a, EffectView::Nothing)
            },
            KeyCode::Char(ch) => if ch == ' ' {
                (spec_pane_dispatch_key(a, k), EffectView::Nothing)
            } else if k.ctrl {
                if ch == 'a' {
                    (AppView { popup: Some(PopupView::About), ..a }, EffectView::Nothing)
                } else if ch == 's' {
                    spec_begin_save(a)
                } else if ch == 'p' {
                    (
                        spec_pane_dispatch_key(
                            a,
                            KeyEvent { code: KeyCode::Up, ctrl: false },
                        ),
                        EffectView::Nothing,
                    )
                } else if ch == 'n' {
                    (
                        spec_pane_dispatch_key(
                            a,
                            KeyEvent { code: KeyCode::Down, ctrl: false },
                        ),
                        EffectView::Nothing,
                    )
                } else {
                    (a, EffectView::Nothing)
                }
            } else {
                (
                    spec_apply_filter_app(
                        AppView { filter: a.filter.push(spec_to_lower(ch)), ..a },
                    ),
                    EffectView::Nothing,
                )
            },
            _ => (a, EffectView::Nothing),
        }
    }
}

/// Forwarding a mouse event past the popups: a click on the task bar turns
/// into the key it stands for; otherwise the focused pane handles it.
pub open spec fn spec_pane_dispatch_mouse(a: AppView, m: MouseEvent) -> (AppView, EffectView) {
    if a.frame_set.task_bar.spec_contains(m.column, m.row) {
        match m.kind {
            MouseKind::Up(button) => if button == MouseButton::Left {
                match spec_hit_test(a.task_bar, m.column as int) {
                    Some(key) => spec_key_step(a, key),
                    None => (a, EffectView::Nothing),
                }
            } else {
                (a, EffectView::Nothing)
            },
            _ => (a, EffectView::Nothing),
        }
    } else {
        (spec_pane_dispatch_mouse_focused(a, m), EffectView::Nothing)
    }
}

/// What one mouse event does to the whole application.
pub open spec fn spec_mouse_step(a: AppView, m: MouseEvent) -> (AppView, EffectView) {
    if a.popup == Some(PopupView::SaveDecision) {
        match m.kind {
            MouseKind::Up(button) => if button == MouseButton::Left {
                match spec_save_hit(a.save_option, m.column, m.row) {
                    Some(opt) => spec_handle_save_option(a, opt),
                    None => (a, EffectView::Nothing),
                }
            } else {
                (a, EffectView::Nothing)
            },
            _ => (a, EffectView::Nothing),
        }
    } else {
        match m.kind {
            MouseKind::Up(button) => if button == MouseButton::Left {
                let cleared = spec_maybe_clear_popup(a);
                if cleared.1 {
                    (cleared.0, EffectView::Nothing)
                } else if (a.available_pane.area.spec_contains(m.column, m.row)
                    && !a.available_pane.has_focus) || (a.selected_pane.area.spec_contains(
                    m.column,
                    m.row,
                ) && !a.selected_pane.has_focus) {
                    (spec_toggle_focus(a), EffectView::Nothing)
                } else {
                    spec_pane_dispatch_mouse(a, m)
                }
            } else {
                (a, EffectView::Nothing)
            },
            _ => spec_pane_dispatch_mouse(a, m),
        }
    }
}

/// What a resize does: all screen regions are recomputed from scratch and
/// handed to the panes and the save popup.
pub open spec fn spec_resize_step(a: AppView, width: u16, height: u16) -> AppView {
    let screen = Rect { x: 0u16, y: 0u16, width, height };
    let frames = spec_calculate_frames(screen);
    AppView {
        frame_set: frames,
        available_pane: PaneView { area: frames.available, ..a.available_pane },
        selected_pane: PaneView { area: frames.selected, ..a.selected_pane },
        save_option: spec_save_frames(screen),
        ..a
    }
}

/// What initialization does: the panes get their titles, the fetched names
/// populate the catalog, the derived lists are pushed into the panes, the
/// Available pane takes focus, and the task bar gets its four buttons.
pub open spec fn spec_initialize(a: AppView, names: Seq<Seq<char>>) -> AppView {
    let a1 = AppView {
        catalog: crate::catalog::spec_insert_all(a.catalog, names),
        available_pane: PaneView { title: "Available Templates"@, ..a.available_pane },
        selected_pane: PaneView { title: "Selected Templates"@, ..a.selected_pane },
        ..a
    };
    let a2 = spec_recompute(a1);
    AppView {
        available_pane: PaneView { has_focus: true, ..a2.available_pane },
        selected_pane: PaneView { has_focus: false, ..a2.selected_pane },
        task_bar: a2.task_bar.push(
            TaskActionView { key: KeyEvent { code: KeyCode::F(1), ctrl: false }, label: "F1 Help"@ },
        ).push(
            TaskActionView {
                key: KeyEvent { code: KeyCode::Char('a'), ctrl: true },
                label: "^A About"@,
            },
        ).push(
            TaskActionView {
                key: KeyEvent { code: KeyCode::Char('s'), ctrl: true },
                label: "^S Save"@,
            },
        ).push(
            TaskActionView {
                key: KeyEvent { code: KeyCode::Char('q'), ctrl: true },
                label: "^Q Quit"@,
            },
        ),
        ..a2
    }
}

/// Law: the quit shortcut terminates from every state, whatever popup is
/// up, and asks for no fetch and hence no file write.
pub proof fn lemma_quit_always_quits(a: AppView, k: KeyEvent)
    requires
        spec_quit_key(k),
    ensures
        spec_key_step(a, k).0.should_quit,
        spec_key_step(a, k).1 == EffectView::Nothing,
{
}

/// Law: starting a save with nothing selected shows exactly the empty-
/// selection error and asks for nothing, so nothing is ever written.
pub proof fn lemma_empty_save_is_refused(a: AppView)
    requires
        spec_selected(a.catalog).len() == 0,
    ensures
        spec_begin_save(a).0.popup == Some(PopupView::Error(spec_empty_selection_msg())),
        spec_begin_save(a).1 == EffectView::Nothing,
{
}

/// The application state.
#[derive(Debug)]
pub struct App {
    should_quit: bool,
    catalog: Catalog,
    filter_pane: Filter,
    available_pane: TemplateList,
    selected_pane: TemplateList,
    task_bar: TaskBar,
    save_option_popup: SaveOption,
    save_option_flag: Option<bool>,
    popup_flag: Option<PopupFlag>,
    frame_set: FrameSet,
}

impl View for App {
    type V = AppView;

    closed spec fn view(&self) -> AppView {
        AppView {
            should_quit: self.should_quit,
            catalog: self.catalog@,
            filter: self.filter_pane@,
            available_pane: self.available_pane@,
            selected_pane: self.selected_pane@,
            task_bar: self.task_bar@,
            save_option: self.save_option_popup@,
            save_option_flag: self.save_option_flag,
            popup: popup_view(&self.popup_flag),
            frame_set: self.frame_set,
        }
    }
}

/// A chosen name always comes from one of the two derived lists, so it is a
/// catalog name.
proof fn lemma_chosen_in_catalog(a: AppView, name: Seq<char>)
    requires
        app_wf(a),
        a.available_pane.spec_chosen() == Some(name) || a.selected_pane.spec_chosen() == Some(
            name,
        ),
    ensures
        catalog_has(a.catalog, name),
{
    if a.available_pane.spec_chosen() == Some(name) {
        let i = a.available_pane.cursor.spec_current()->0 as int;
        lemma_filtered_props(a.catalog, available_pred());
        assert(entry_with_name(a.catalog, available_pred(), spec_available(a.catalog)[i]));
        let w = choose|j: int|
            0 <= j < a.catalog.len() && (#[trigger] a.catalog[j]).name == name && available_pred()(
                a.catalog[j],
            );
        assert(a.catalog[w].name == name);
    } else {
        let i = a.selected_pane.cursor.spec_current()->0 as int;
        lemma_filtered_props(a.catalog, selected_pred());
        assert(entry_with_name(a.catalog, selected_pred(), spec_selected(a.catalog)[i]));
        let w = choose|j: int|
            0 <= j < a.catalog.len() && (#[trigger] a.catalog[j]).name == name && selected_pred()(
                a.catalog[j],
            );
        assert(a.catalog[w].name == name);
    }
}

impl App {
    /// A fresh application: empty catalog, empty filter, no focus, no
    /// popup.
    pub fn new() -> (r: App)
        ensures
            app_wf(r@),
            !r@.should_quit,
            r@.catalog == Seq::<TemplateView>::empty(),
            r@.filter == Seq::<char>::empty(),
            r@.popup is None,
            r@.save_option_flag is None,
            r@.task_bar == Seq::<TaskActionView>::empty(),
    {
        let r = App {
            should_quit: false,
            catalog: Catalog::new(),
            filter_pane: Filter::new(),
            available_pane: TemplateList::new(),
            selected_pane: TemplateList::new(),
            task_bar: TaskBar::new(),
            save_option_popup: SaveOption::new(),
            save_option_flag: None,
            popup_flag: None,
            frame_set: FrameSet::zero(),
        };
        proof {
            assert(spec_available(r@.catalog) =~= Seq::<Seq<char>>::empty());
            assert(spec_selected(r@.catalog) =~= Seq::<Seq<char>>::empty());
        }
        r
    }

    pub fn should_quit(&self) -> (r: bool)
        ensures
            r == self@.should_quit,
    {
        self.should_quit
    }

    fn quit(&mut self)
        ensures
            final(self)@ == (AppView { should_quit: true, ..old(self)@ }),
    {
        self.should_quit = true;
    }

    /// The four screen regions, as last computed.
    pub fn frame_set(&self) -> (r: FrameSet)
        ensures
            r == self@.frame_set,
    {
        self.frame_set
    }

    /// The filter text, for painting the filter bar.
    pub fn filter_text(&self) -> (r: &Vec<char>)
        ensures
            r@ == self@.filter,
    {
        self.filter_pane.text()
    }

    pub fn available_pane(&self) -> (r: &TemplateList)
        ensures
            r@ == self@.available_pane,
    {
        &self.available_pane
    }

    pub fn selected_pane(&self) -> (r: &TemplateList)
        ensures
            r@ == self@.selected_pane,
    {
        &self.selected_pane
    }

    pub fn task_bar(&self) -> (r: &TaskBar)
        ensures
            r@ == self@.task_bar,
    {
        &self.task_bar
    }

    pub fn save_option_popup(&self) -> (r: &SaveOption)
        ensures
            r@ == self@.save_option,
    {
        &self.save_option_popup
    }

    /// The popup that is up, if any, for painting it.
    pub fn popup(&self) -> (r: &Option<PopupFlag>)
        ensures
            popup_view(r) == self@.popup,
    {
        &self.popup_flag
    }

    fn set_error_popup_flag(&mut self, message: String)
        ensures
            final(self)@ == (AppView {
                popup: Some(PopupView::Error(message@)),
                ..old(self)@
            }),
    {
        self.popup_flag = Some(PopupFlag::Error(message));
    }

    fn set_help_popup_flag(&mut self)
        ensures
            final(self)@ == (AppView { popup: Some(PopupView::Help), ..old(self)@ }),
    {
        self.popup_flag = Some(PopupFlag::Help);
    }

    fn set_about_popup_flag(&mut self)
        ensures
            final(self)@ == (AppView { popup: Some(PopupView::About), ..old(self)@ }),
    {
        self.popup_flag = Some(PopupFlag::About);
    }

    fn set_save_option_popup_flag(&mut self)
        ensures
            final(self)@ == (AppView { popup: Some(PopupView::SaveDecision), ..old(self)@ }),
    {
        self.popup_flag = Some(PopupFlag::SaveOption);
    }

    /// Clears the error, help or about popup if one is up and reports that
    /// the input was swallowed; the save-decision popup is not dismissed
    /// this way.
    fn maybe_clear_message(&mut self) -> (r: bool)
        ensures
            final(self)@ == spec_maybe_clear_popup(old(self)@).0,
            r == spec_maybe_clear_popup(old(self)@).1,
    {
        match &self.popup_flag {
            Some(flag) => match flag {
                PopupFlag::Error(_) | PopupFlag::Help | PopupFlag::About => {
                    self.popup_flag = None;
                    true
                },
                PopupFlag::SaveOption => false,
            },
            None => false,
        }
    }

    /// Pushes the two derived lists into the panes.
    fn set_templates(&mut self)
        requires
            catalog_wf(old(self)@.catalog),
        ensures
            final(self)@ == spec_recompute(old(self)@),
            final(self)@.available_pane.wf(),
            final(self)@.selected_pane.wf(),
            final(self)@.available_pane.templates == spec_available(final(self)@.catalog),
            final(self)@.selected_pane.templates == spec_selected(final(self)@.catalog),
    {
        proof {
            lemma_filtered_props(self@.catalog, available_pred());
            lemma_filtered_props(self@.catalog, selected_pred());
        }
        let available = self.catalog.available_templates();
        self.available_pane.set_templates(available);
        let selected = self.catalog.selected_templates();
        self.selected_pane.set_templates(selected);
    }

    /// Flips a template's selection flag and recomputes both lists.
    fn toggle_selection(&mut self, template: String)
        requires
            app_wf(old(self)@),
            catalog_has(old(self)@.catalog, template@) || old(self)@.catalog.len() < MAX_ITEMS,
        ensures
            final(self)@ == spec_toggle_selection(old(self)@, template@),
            app_wf(final(self)@),
    {
        self.catalog.toggle(template);
        self.set_templates();
    }

    /// Recomputes every entry's visibility from the filter text and
    /// refreshes both lists.
    fn apply_filter(&mut self)
        requires
            app_wf(old(self)@),
        ensures
            final(self)@ == spec_apply_filter_app(old(self)@),
            app_wf(final(self)@),
    {
        self.catalog.apply_filter(self.filter_pane.text());
        self.set_templates();
    }

    fn focus_available(&mut self)
        ensures
            final(self)@ == spec_focus_available(old(self)@),
    {
        if !self.available_pane.has_focus() {
            self.available_pane.set_focus(true);
            self.selected_pane.set_focus(false);
        }
    }

    fn focus_selected(&mut self)
        ensures
            final(self)@ == spec_focus_selected(old(self)@),
    {
        if !self.selected_pane.has_focus() {
            self.available_pane.set_focus(false);
            self.selected_pane.set_focus(true);
        }
    }

    fn toggle_focus(&mut self)
        ensures
            final(self)@ == spec_toggle_focus(old(self)@),
    {
        if self.available_pane.has_focus() {
            self.focus_selected();
        } else {
            self.focus_available();
        }
    }

    /// Forwards a key to the focused pane and applies a chosen template.
    fn pane_handle_key_event(&mut self, key_event: KeyEvent)
        requires
            app_wf(old(self)@),
        ensures
            final(self)@ == spec_pane_dispatch_key(old(self)@, key_event),
            app_wf(final(self)@),
    {
        let chosen = if self.available_pane.has_focus() {
            self.available_pane.handle_key_event(key_event)
        } else {
            self.selected_pane.handle_key_event(key_event)
        };
        match chosen {
            Some(name) => {
                proof {
                    lemma_chosen_in_catalog(old(self)@, name@);
                }
                self.toggle_selection(name);
            },
            None => {},
        }
    }

    /// Starts the save routine: refuses an empty selection with the error
    /// popup, else asks the caller to fetch the merged text.
    pub fn begin_save(&mut self) -> (r: UiEffect)
        requires
            app_wf(old(self)@),
        ensures
            final(self)@ == spec_begin_save(old(self)@).0,
            r@ == spec_begin_save(old(self)@).1,
            app_wf(final(self)@),
    {
        let selected = self.catalog.selected_templates();
        if selected.len() == 0 {
            self.set_error_popup_flag(
                String::from_str("Select one or more templates and try again."),
            );
            UiEffect::Nothing
        } else {
            UiEffect::FetchTemplates(selected)
        }
    }

    /// Applies a choice made in the save-decision popup.
    pub fn handle_save_option(&mut self, save_option: SaveOptions) -> (r: UiEffect)
        requires
            app_wf(old(self)@),
        ensures
            final(self)@ == spec_handle_save_option(old(self)@, save_option).0,
            r@ == spec_handle_save_option(old(self)@, save_option).1,
            app_wf(final(self)@),
    {
        match save_option {
            SaveOptions::Replace => {
                self.save_option_flag = Some(true);
                self.popup_flag = None;
                self.begin_save()
            },
            SaveOptions::Append => {
                self.save_option_flag = Some(false);
                self.popup_flag = None;
                self.begin_save()
            },
            SaveOptions::Cancel => {
                self.popup_flag = None;
                UiEffect::Nothing
            },
        }
    }

    /// After the fetch succeeded: decides how to open the file, or opens
    /// the save-decision popup when an existing file needs a choice first.
    pub fn save_fetched(&mut self, file_exists: bool) -> (r: Option<WriteMode>)
        requires
            app_wf(old(self)@),
        ensures
            final(self)@ == spec_save_fetched(old(self)@, file_exists).0,
            r == spec_save_fetched(old(self)@, file_exists).1,
            app_wf(final(self)@),
    {
        if !file_exists {
            Some(WriteMode::Create)
        } else {
            match self.save_option_flag {
                None => {
                    self.set_save_option_popup_flag();
                    None
                },
                Some(true) => {
                    self.save_option_flag = None;
                    Some(WriteMode::Replace)
                },
                Some(false) => {
                    self.save_option_flag = None;
                    Some(WriteMode::Append)
                },
            }
        }
    }

    /// After the fetch failed: shows the error popup naming the selected
    /// templates and the failure detail.
    pub fn save_fetch_failed(&mut self, detail: &str)
        requires
            app_wf(old(self)@),
        ensures
            final(self)@ == (AppView {
                popup: Some(
                    PopupView::Error(
                        spec_fetch_error_msg(spec_selected(old(self)@.catalog), detail@),
                    ),
                ),
                ..old(self)@
            }),
            app_wf(final(self)@),
    {
        let selected = self.catalog.selected_templates();
        let joined = crate::api::join_names(&selected, " ");
        let mut message = String::from_str("Problem getting .gitignore for \"");
        message.append(joined.as_str());
        message.append("\": ");
        message.append(detail);
        self.set_error_popup_flag(message);
    }

    /// After a successful write: terminates the application and hands back
    /// the confirmation to print.
    pub fn write_succeeded(&mut self, mode: WriteMode) -> (r: String)
        ensures
            final(self)@ == (AppView { should_quit: true, ..old(self)@ }),
            r@ == spec_save_message(mode),
    {
        self.quit();
        match mode {
            WriteMode::Create => String::from_str("Created new .gitingore file."),
            WriteMode::Replace => String::from_str(
                "Replaced contents of existing .gitignore file.",
            ),
            WriteMode::Append => String::from_str(
                "Appended templates to existing .gitignore file.",
            ),
        }
    }

    /// After a failed write: shows the failure as the error popup; the
    /// selection is kept so the user can retry.
    pub fn write_failed(&mut self, detail: &str)
        ensures
            final(self)@ == (AppView {
                popup: Some(PopupView::Error(detail@)),
                ..old(self)@
            }),
    {
        self.set_error_popup_flag(String::from_str(detail));
    }

    /// Takes the fetched template names in: titles the panes, fills the
    /// catalog, derives the lists, focuses the Available pane and sets up
    /// the task bar. Runs once, at startup.
    pub fn initialize(&mut self, names: Vec<String>)
        requires
            app_wf(old(self)@),
            old(self)@.catalog.len() + names@.len() <= MAX_ITEMS,
            old(self)@.task_bar == Seq::<TaskActionView>::empty(),
        ensures
            final(self)@ == spec_initialize(old(self)@, names.deep_view()),
            app_wf(final(self)@),
    {
        self.available_pane.set_title("Available Templates");
        self.selected_pane.set_title("Selected Templates");
        self.catalog.insert_names(&names);
        self.set_templates();
        self.available_pane.set_focus(true);
        self.selected_pane.set_focus(false);
        proof {
            reveal_strlit("F1 Help");
            reveal_strlit("^A About");
            reveal_strlit("^S Save");
            reveal_strlit("^Q Quit");
        }
        self.task_bar.add_task(KeyEvent::new(KeyCode::F(1), false), "F1 Help");
        proof {
            let tb = self.task_bar@;
            assert(spec_start(tb, 0) == 1);
            assert(spec_start(tb, 1) == 11);
        }
        self.task_bar.add_task(KeyEvent::new(KeyCode::Char('a'), true), "^A About");
        proof {
            let tb = self.task_bar@;
            assert(spec_start(tb, 0) == 1);
            assert(spec_start(tb, 1) == 11);
            assert(spec_start(tb, 2) == 22);
        }
        self.task_bar.add_task(KeyEvent::new(KeyCode::Char('s'), true), "^S Save");
        proof {
            let tb = self.task_bar@;
            assert(spec_start(tb, 0) == 1);
            assert(spec_start(tb, 1) == 11);
            assert(spec_start(tb, 2) == 22);
            assert(spec_start(tb, 3) == 32);
        }
        self.task_bar.add_task(KeyEvent::new(KeyCode::Char('q'), true), "^Q Quit");
    }

    /// Handles one key press.
    pub fn handle_key_event(&mut self, key_event: KeyEvent) -> (r: UiEffect)
        requires
            app_wf(old(self)@),
        ensures
            final(self)@ == spec_key_step(old(self)@, key_event).0,
            r@ == spec_key_step(old(self)@, key_event).1,
            app_wf(final(self)@),
    {
        if matches!(key_event.code, KeyCode::Char('q')) && key_event.ctrl {
            self.quit();
            return UiEffect::Nothing;
        }
        if matches!(self.popup_flag, Some(PopupFlag::SaveOption)) {
            match key_event.code {
                KeyCode::Esc => {
                    self.popup_flag = None;
                    UiEffect::Nothing
                },
                KeyCode::Char(ch) => {
                    match self.save_option_popup.key_test(ch) {
                        None => UiEffect::Nothing,
                        Some(save_option) => self.handle_save_option(save_option),
                    }
                },
                _ => UiEffect::Nothing,
            }
        } else if self.maybe_clear_message() {
            UiEffect::Nothing
        } else {
            match key_event.code {
                KeyCode::Tab => {
                    self.toggle_focus();
                    UiEffect::Nothing
                },
                KeyCode::Enter | KeyCode::Home | KeyCode::PageUp | KeyCode::Up | KeyCode::End
                    | KeyCode::PageDown | KeyCode::Down => {
                    self.pane_handle_key_event(key_event);
                    UiEffect::Nothing
                },
                KeyCode::Esc | KeyCode::Delete => {
                    self.filter_pane.clear();
                    self.apply_filter();
                    UiEffect::Nothing
                },
                KeyCode::Backspace => {
                    self.filter_pane.delete_last();
                    self.apply_filter();
                    UiEffect::Nothing
                },
                KeyCode::F(n) => {
                    if n == 1 {
                        self.set_help_popup_flag();
                    }
                    UiEffect::Nothing
                },
                KeyCode::Char(ch) => {
                    if ch == ' ' {
                        self.pane_handle_key_event(key_event);
                        UiEffect::Nothing
                    } else if key_event.ctrl {
                        if ch == 'a' {
                            self.set_about_popup_flag();
                            UiEffect::Nothing
                        } else if ch == 's' {
                            self.begin_save()
                        } else if ch == 'p' {
                            self.pane_handle_key_event(
                                KeyEvent { code: KeyCode::Up, ctrl: false },
                            );
                            UiEffect::Nothing
                        } else if ch == 'n' {
                            self.pane_handle_key_event(
                                KeyEvent { code: KeyCode::Down, ctrl: false },
                            );
                            UiEffect::Nothing
                        } else {
                            UiEffect::Nothing
                        }
                    } else {
                        self.filter_pane.append(to_ascii_lower(ch));
                        self.apply_filter();
                        UiEffect::Nothing
                    }
                },
                _ => UiEffect::Nothing,
            }
        }
    }

    /// Forwards a mouse event past the popups: the task bar maps a click
    /// to its key, else the focused pane handles it.
    fn pane_handle_mouse_event(&mut self, mouse_event: MouseEvent) -> (r: UiEffect)
        requires
            app_wf(old(self)@),
        ensures
            final(self)@ == spec_pane_dispatch_mouse(old(self)@, mouse_event).0,
            r@ == spec_pane_dispatch_mouse(old(self)@, mouse_event).1,
            app_wf(final(self)@),
    {
        if is_in_rect(mouse_event.column, mouse_event.row, self.frame_set.task_bar) {
            match mouse_event.kind {
                MouseKind::Up(button) => {
                    if matches!(button, MouseButton::Left) {
                        match self.task_bar.hit_test(mouse_event.column) {
                            Some(key_event) => self.handle_key_event(key_event),
                            None => UiEffect::Nothing,
                        }
                    } else {
                        UiEffect::Nothing
                    }
                },
                _ => UiEffect::Nothing,
            }
        } else {
            let chosen = if self.available_pane.has_focus() {
                self.available_pane.handle_mouse_event(mouse_event)
            } else if self.selected_pane.has_focus() {
                self.selected_pane.handle_mouse_event(mouse_event)
            } else {
                None
            };
            match chosen {
                Some(name) => {
                    proof {
                        lemma_chosen_in_catalog(old(self)@, name@);
                    }
                    self.toggle_selection(name);
                },
                None => {},
            }
            UiEffect::Nothing
        }
    }

    /// Handles one mouse event.
    pub fn handle_mouse_event(&mut self, mouse_event: MouseEvent) -> (r: UiEffect)
        requires
            app_wf(old(self)@),
        ensures
            final(self)@ == spec_mouse_step(old(self)@, mouse_event).0,
            r@ == spec_mouse_step(old(self)@, mouse_event).1,
            app_wf(final(self)@),
    {
        if matches!(self.popup_flag, Some(PopupFlag::SaveOption)) {
            match mouse_event.kind {
                MouseKind::Up(button) => {
                    if matches!(button, MouseButton::Left) {
                        match self.save_option_popup.hit_test(
                            mouse_event.column,
                            mouse_event.row,
                        ) {
                            None => UiEffect::Nothing,
                            Some(save_option) => self.handle_save_option(save_option),
                        }
                    } else {
                        UiEffect::Nothing
                    }
                },
                _ => UiEffect::Nothing,
            }
        } else {
            match mouse_event.kind {
                MouseKind::Up(button) => {
                    if matches!(button, MouseButton::Left) {
                        if self.maybe_clear_message() {
                            UiEffect::Nothing
                        } else if (self.available_pane.hit_test(
                            mouse_event.column,
                            mouse_event.row,
                        ) && !self.available_pane.has_focus()) || (self.selected_pane.hit_test(
                            mouse_event.column,
                            mouse_event.row,
                        ) && !self.selected_pane.has_focus()) {
                            self.toggle_focus();
                            UiEffect::Nothing
                        } else {
                            self.pane_handle_mouse_event(mouse_event)
                        }
                    } else {
                        UiEffect::Nothing
                    }
                },
                _ => self.pane_handle_mouse_event(mouse_event),
            }
        }
    }

    /// Recomputes all screen regions from the new terminal size.
    pub fn handle_resize_event(&mut self, width: u16, height: u16)
        requires
            app_wf(old(self)@),
        ensures
            final(self)@ == spec_resize_step(old(self)@, width, height),
            app_wf(final(self)@),
    {
        let screen = Rect::new(0, 0, width, height);
        self.frame_set = calculate_frames(screen);
        self.available_pane.handle_resize_event(self.frame_set.available);
        self.selected_pane.handle_resize_event(self.frame_set.selected);
        self.save_option_popup.handle_resize_event(screen);
    }

    /// Handles one event of the interaction loop. Lifecycle events that
    /// carry no input are ignored; the initial catalog arrives through
    /// `initialize`.
    pub fn handle_event(&mut self, event: Event) -> (r: UiEffect)
        requires
            app_wf(old(self)@),
        ensures
            app_wf(final(self)@),
            match event {
                Event::Key(k) => final(self)@ == spec_key_step(old(self)@, k).0 && r@
                    == spec_key_step(old(self)@, k).1,
                Event::Mouse(m) => final(self)@ == spec_mouse_step(old(self)@, m).0 && r@
                    == spec_mouse_step(old(self)@, m).1,
                Event::Resize(w, h) => final(self)@ == spec_resize_step(old(self)@, w, h) && r@
                    == EffectView::Nothing,
                Event::TemplateSelect(name) => final(self)@ == (if catalog_has(
                    old(self)@.catalog,
                    name@,
                ) || old(self)@.catalog.len() < MAX_ITEMS {
                    spec_toggle_selection(old(self)@, name@)
                } else {
                    old(self)@
                }) && r@ == EffectView::Nothing,
                _ => final(self)@ == old(self)@ && r@ == EffectView::Nothing,
            },
    {
        match event {
            Event::Key(key_event) => self.handle_key_event(key_event),
            Event::Mouse(mouse_event) => self.handle_mouse_event(mouse_event),
            Event::Resize(width, height) => {
                self.handle_resize_event(width, height);
                UiEffect::Nothing
            },
            Event::TemplateSelect(template) => {
                let present = self.catalog.has_name(&template);
                if present || self.catalog.len() < MAX_ITEMS {
                    proof {
                        if !present {
                        }
                    }
                    self.toggle_selection(template);
                }
                UiEffect::Nothing
            },
            _ => UiEffect::Nothing,
        }
    }
}

} // verus!
