//! The menus and forms of the client, and what keys do in them.

use vstd::prelude::*;
use crate::client::model::ClientSupervisorModel;
use crate::client::routes;
use crate::client::rows;
use crate::client::state::{self, ModelView};
use crate::client::types::{
    AddRemoteDraft, AddRemoteDraftView, AddRemoteField, AddRemoteForm, AddRemoteFormOutcome,
    AddRemoteFormView, AddRemoteRestartConfirm, ClientGlobalMenuAction, ClientOverlayState,
    ConfirmCloseOutcome, ConfirmCloseView, ConfirmCloseWorkspace, ContextMenuView,
    ManageOutcomeView, ManageView, OverlayView, RemoteManageOutcome, RemoteManageOverlay,
    RenameFormView, RenameWorkspaceForm, RenameWorkspaceOutcome, RestartConfirmView, ServerId,
    WorkspaceContextMenu, WorkspaceContextOutcome,
};
use crate::input::{self, KeyCode, KeyEventKind, TerminalKey};
use crate::remote_registry::RemoteKeybindingsSnapshot;
use crate::text;

verus! {

/// Text without white space at either end; nothing when that leaves nothing.
pub open spec fn some_trimmed(value: Seq<char>) -> Option<Seq<char>> {
    if text::trimmed(value).len() > 0 {
        Some(text::trimmed(value))
    } else {
        None
    }
}

/// Text without white space at either end; `None` when that leaves nothing.
pub fn trimmed_optional(value: &str) -> (r: Option<String>)
    ensures
        text::opt_view(r) == some_trimmed(value@),
{
    let value = text::trim(value);
    if value.as_str().is_empty() {
        None
    } else {
        Some(value)
    }
}

/// The entries of the client menu.
pub open spec fn global_menu() -> Seq<Seq<char>> {
    seq![
        "settings"@,
        "keybinds"@,
        "reload config"@,
        "detach"@,
        "add remote"@,
        "manage remotes"@,
    ]
}

/// An empty form.
pub open spec fn empty_form() -> AddRemoteFormView {
    AddRemoteFormView {
        target: Seq::empty(),
        name: Seq::empty(),
        focused_field: AddRemoteField::Target,
        error: None,
        in_progress: false,
        restart_confirm: None,
    }
}

pub open spec fn add_remote_opened(m: ModelView) -> ModelView {
    ModelView { picker: None, overlay: OverlayView::AddRemote(empty_form()), ..m }
}

pub open spec fn manage_opened(m: ModelView) -> ModelView {
    ModelView {
        picker: None,
        overlay: OverlayView::ManageRemotes(
            ManageView { selected: 0, scroll: 0, confirm_delete: None, pending: None },
        ),
        ..m
    }
}

/// What an entry of the client menu does, and the state after it.
pub open spec fn menu_chosen(m: ModelView, index: usize) -> (
    ModelView,
    Option<ClientGlobalMenuAction>,
) {
    match index {
        0 => (state::overlay_closed(m), Some(ClientGlobalMenuAction::Settings)),
        1 => (state::overlay_closed(m), Some(ClientGlobalMenuAction::Keybinds)),
        2 => (state::overlay_closed(m), Some(ClientGlobalMenuAction::ReloadConfig)),
        3 => (state::overlay_closed(m), Some(ClientGlobalMenuAction::Detach)),
        4 => (add_remote_opened(m), Some(ClientGlobalMenuAction::AddRemote)),
        5 => (manage_opened(m), Some(ClientGlobalMenuAction::ManageRemotes)),
        _ => (m, None),
    }
}

/// The highlighted entry of the client menu, when it is open.
pub open spec fn highlighted(m: ModelView) -> Option<usize> {
    match m.overlay {
        OverlayView::GlobalMenu(h) => Some(h),
        _ => None,
    }
}

/// The state with another entry of the client menu highlighted, if it is open.
pub open spec fn highlight_set(m: ModelView, h: usize) -> ModelView {
    match m.overlay {
        OverlayView::GlobalMenu(_) => ModelView { overlay: OverlayView::GlobalMenu(h), ..m },
        _ => m,
    }
}

/// The form that adds a remote, when it is open.
pub open spec fn form_of(m: ModelView) -> Option<AddRemoteFormView> {
    match m.overlay {
        OverlayView::AddRemote(form) => Some(form),
        _ => None,
    }
}

/// The state with another form, if it is open.
pub open spec fn form_set(m: ModelView, form: AddRemoteFormView) -> ModelView {
    match m.overlay {
        OverlayView::AddRemote(_) => ModelView { overlay: OverlayView::AddRemote(form), ..m },
        _ => m,
    }
}

/// The text of the focused field.
pub open spec fn input_of(form: AddRemoteFormView) -> Seq<char> {
    match form.focused_field {
        AddRemoteField::Target => form.target,
        AddRemoteField::Name => form.name,
    }
}

/// The form with other text in the focused field, and without an error.
pub open spec fn edited(form: AddRemoteFormView, input: Seq<char>) -> AddRemoteFormView {
    match form.focused_field {
        AddRemoteField::Target => AddRemoteFormView { target: input, error: None, ..form },
        AddRemoteField::Name => AddRemoteFormView { name: input, error: None, ..form },
    }
}

/// Text without its last character.
pub open spec fn backspaced(input: Seq<char>) -> Seq<char> {
    if input.len() > 0 {
        input.drop_last()
    } else {
        input
    }
}

/// The form after it was submitted, and the remote to add: none without a target.
pub open spec fn submitted(form: AddRemoteFormView, restart: bool) -> (
    AddRemoteFormView,
    Option<AddRemoteDraftView>,
) {
    let target = text::trimmed(form.target);
    if target.len() == 0 {
        (AddRemoteFormView { error: Some("target required"@), ..form }, None)
    } else {
        (
            form,
            Some(
                AddRemoteDraftView {
                    target,
                    name: some_trimmed(form.name),
                    keybindings: RemoteKeybindingsSnapshot::Local,
                    restart_incompatible: restart,
                },
            ),
        )
    }
}

/// The answer to the question whether to restart the remote server. Nothing but
/// an answer changes the form.
pub open spec fn restart_answered(
    form: AddRemoteFormView,
    question: RestartConfirmView,
    code: KeyCode,
) -> (AddRemoteFormView, Option<AddRemoteDraftView>) {
    let asked = AddRemoteFormView { restart_confirm: None, ..form };
    if code == KeyCode::Char('y') || code == KeyCode::Char('Y') || code == KeyCode::Enter {
        submitted(asked, true)
    } else if code == KeyCode::Char('n') || code == KeyCode::Char('N') || code == KeyCode::Esc {
        (
            AddRemoteFormView {
                error: Some("left "@ + question.destination + " unchanged"@),
                ..asked
            },
            None,
        )
    } else {
        (form, None)
    }
}

/// A key in the form, where no question is open. `None` closes the form.
pub open spec fn form_key(form: AddRemoteFormView, key: TerminalKey) -> (
    Option<AddRemoteFormView>,
    Option<AddRemoteDraftView>,
) {
    match key.code {
        KeyCode::Esc => (None, None),
        KeyCode::Tab | KeyCode::Down | KeyCode::Up => (
            Some(
                AddRemoteFormView {
                    focused_field: match form.focused_field {
                        AddRemoteField::Target => AddRemoteField::Name,
                        AddRemoteField::Name => AddRemoteField::Target,
                    },
                    error: None,
                    ..form
                },
            ),
            None,
        ),
        KeyCode::Enter => (Some(submitted(form, false).0), submitted(form, false).1),
        KeyCode::Backspace => (Some(edited(form, backspaced(input_of(form)))), None),
        KeyCode::Char(c) => if c == 'u' && key.modifiers.control {
            (Some(edited(form, Seq::empty())), None)
        } else if input::at_most_shift(key.modifiers) {
            (Some(edited(form, input_of(form).push(c))), None)
        } else {
            (Some(form), None)
        },
        _ => (Some(form), None),
    }
}

/// A key while the form that adds a remote is expected to be open.
pub open spec fn add_remote_key(overlay: OverlayView, key: TerminalKey) -> (
    OverlayView,
    Option<AddRemoteDraftView>,
) {
    if key.kind == KeyEventKind::Release {
        (overlay, None)
    } else {
        match overlay {
            OverlayView::AddRemote(form) => match form.restart_confirm {
                Some(question) => {
                    let (next, draft) = restart_answered(form, question, key.code);
                    (OverlayView::AddRemote(next), draft)
                },
                None => {
                    let (next, draft) = form_key(form, key);
                    (
                        match next {
                            Some(f) => OverlayView::AddRemote(f),
                            None => OverlayView::Closed,
                        },
                        draft,
                    )
                },
            },
            _ => if key.code == KeyCode::Esc {
                (OverlayView::Closed, None)
            } else {
                (overlay, None)
            },
        }
    }
}

/// The list of remotes, when it is open.
pub open spec fn list_of(m: ModelView) -> Option<ManageView> {
    match m.overlay {
        OverlayView::ManageRemotes(list) => Some(list),
        _ => None,
    }
}

/// The state with another list of remotes, if it is open.
pub open spec fn list_set(m: ModelView, list: ManageView) -> ModelView {
    match m.overlay {
        OverlayView::ManageRemotes(_) => ModelView {
            overlay: OverlayView::ManageRemotes(list),
            ..m
        },
        _ => m,
    }
}

/// The state with another remote selected, unless a deletion is being confirmed.
pub open spec fn list_selected(m: ModelView, selected: usize) -> ModelView {
    match list_of(m) {
        Some(list) if list.confirm_delete is None => list_set(m, ManageView { selected, ..list }),
        _ => m,
    }
}

/// How many remotes there are.
pub open spec fn manage_len(m: ModelView) -> int {
    rows::manage_rows(m.servers).len() as int
}

pub open spec fn list_moved_down(m: ModelView) -> ModelView {
    match list_of(m) {
        Some(list) => list_selected(m, state::step_down(list.selected, manage_len(m))),
        None => m,
    }
}

pub open spec fn list_moved_up(m: ModelView) -> ModelView {
    match list_of(m) {
        Some(list) => list_selected(m, state::step_up(list.selected)),
        None => m,
    }
}

/// The selected remote, if there is one at the selected place.
pub open spec fn selected_remote(m: ModelView) -> Option<Seq<char>> {
    match list_of(m) {
        Some(list) if list.selected < manage_len(m) => Some(
            rows::manage_rows(m.servers)[list.selected as int].remote_id,
        ),
        _ => None,
    }
}

/// The state in which the deletion of the selected remote is to be confirmed.
pub open spec fn delete_begun(m: ModelView) -> ModelView {
    match (list_of(m), selected_remote(m)) {
        (Some(list), Some(remote_id)) => list_set(
            m,
            ManageView { confirm_delete: Some(remote_id), ..list },
        ),
        _ => m,
    }
}

pub open spec fn delete_cancelled(m: ModelView) -> ModelView {
    match list_of(m) {
        Some(list) => list_set(m, ManageView { confirm_delete: None, ..list }),
        None => m,
    }
}

/// The state after a request about the remote was answered.
pub open spec fn pending_cleared(m: ModelView, remote_id: Seq<char>) -> ModelView {
    match list_of(m) {
        Some(list) => list_set(
            m,
            ManageView {
                pending: if list.pending == Some(remote_id) {
                    None
                } else {
                    list.pending
                },
                confirm_delete: if list.confirm_delete == Some(remote_id) {
                    None
                } else {
                    list.confirm_delete
                },
                ..list
            },
        ),
        None => m,
    }
}

/// The confirmation of a deletion: it is sent once, and not again while it is
/// pending.
pub open spec fn delete_confirmed(m: ModelView) -> (ModelView, ManageOutcomeView) {
    match list_of(m) {
        Some(list) => match list.confirm_delete {
            Some(remote_id) => if list.pending == Some(remote_id) {
                (m, ManageOutcomeView::Redraw)
            } else {
                (
                    list_set(m, ManageView { pending: Some(remote_id), ..list }),
                    ManageOutcomeView::Delete { remote_id },
                )
            },
            None => (m, ManageOutcomeView::Redraw),
        },
        None => (m, ManageOutcomeView::Redraw),
    }
}

/// The selected remote switched on or off, unless a request about it is pending.
pub open spec fn toggled(m: ModelView) -> (ModelView, ManageOutcomeView) {
    match (list_of(m), selected_remote(m)) {
        (Some(list), Some(remote_id)) => if list.pending == Some(remote_id) {
            (m, ManageOutcomeView::Redraw)
        } else {
            (
                list_set(m, ManageView { pending: Some(remote_id), ..list }),
                ManageOutcomeView::SetEnabled {
                    remote_id,
                    enabled: !rows::manage_rows(m.servers)[list.selected as int].enabled,
                },
            )
        },
        _ => (m, ManageOutcomeView::Redraw),
    }
}

/// A key in the list of remotes.
pub open spec fn manage_key(m: ModelView, key: TerminalKey) -> (ModelView, ManageOutcomeView) {
    if key.kind == KeyEventKind::Release {
        (m, ManageOutcomeView::Redraw)
    } else {
        match list_of(m) {
            None => (m, ManageOutcomeView::Redraw),
            Some(list) => if list.confirm_delete is Some {
                if key.code == KeyCode::Enter || key.code == KeyCode::Char('d') {
                    delete_confirmed(m)
                } else if key.code == KeyCode::Esc {
                    (delete_cancelled(m), ManageOutcomeView::Redraw)
                } else {
                    (m, ManageOutcomeView::Redraw)
                }
            } else {
                match key.code {
                    KeyCode::Esc => (state::overlay_closed(m), ManageOutcomeView::Redraw),
                    KeyCode::Up => (list_moved_up(m), ManageOutcomeView::Redraw),
                    KeyCode::Char('k') => (list_moved_up(m), ManageOutcomeView::Redraw),
                    KeyCode::Down => (list_moved_down(m), ManageOutcomeView::Redraw),
                    KeyCode::Char('j') => (list_moved_down(m), ManageOutcomeView::Redraw),
                    KeyCode::Char(' ') => toggled(m),
                    KeyCode::Char('d') => (delete_begun(m), ManageOutcomeView::Redraw),
                    KeyCode::Char('a') => (
                        add_remote_opened(m),
                        ManageOutcomeView::OpenAddRemote,
                    ),
                    _ => (m, ManageOutcomeView::Redraw),
                }
            },
        }
    }
}

/// The menu of a workspace, when it is open.
pub open spec fn menu_of(m: ModelView) -> Option<ContextMenuView> {
    match m.overlay {
        OverlayView::ContextMenu(menu) => Some(menu),
        _ => None,
    }
}

pub open spec fn menu_selected(m: ModelView, selected: usize) -> ModelView {
    match menu_of(m) {
        Some(menu) => ModelView {
            overlay: OverlayView::ContextMenu(ContextMenuView { selected, ..menu }),
            ..m
        },
        None => m,
    }
}

pub open spec fn menu_moved_down(m: ModelView) -> ModelView {
    match menu_of(m) {
        Some(menu) => menu_selected(
            m,
            state::step_down(menu.selected, state::context_menu_len()),
        ),
        None => m,
    }
}

pub open spec fn menu_moved_up(m: ModelView) -> ModelView {
    match menu_of(m) {
        Some(menu) => menu_selected(m, state::step_up(menu.selected)),
        None => m,
    }
}

/// The menu of a workspace turned into the form that renames it.
pub open spec fn rename_opened(m: ModelView) -> ModelView {
    match menu_of(m) {
        Some(menu) => ModelView {
            overlay: OverlayView::Rename(
                RenameFormView {
                    server_id: menu.server_id,
                    workspace_id: menu.workspace_id,
                    label: menu.label,
                    error: None,
                },
            ),
            ..m
        },
        None => m,
    }
}

/// The menu of a workspace turned into the question whether to close it.
pub open spec fn close_opened(m: ModelView) -> ModelView {
    match menu_of(m) {
        Some(menu) => ModelView {
            overlay: OverlayView::ConfirmClose(
                ConfirmCloseView {
                    server_id: menu.server_id,
                    workspace_id: menu.workspace_id,
                    label: menu.label,
                },
            ),
            ..m
        },
        None => m,
    }
}

/// What an entry of the menu of a workspace does.
pub open spec fn item_chosen(m: ModelView, index: usize) -> (ModelView, WorkspaceContextOutcome) {
    match index {
        0 => (rename_opened(m), WorkspaceContextOutcome::OpenRename),
        1 => (close_opened(m), WorkspaceContextOutcome::OpenConfirmClose),
        _ => (m, WorkspaceContextOutcome::Redraw),
    }
}

pub open spec fn item_accepted(m: ModelView) -> (ModelView, WorkspaceContextOutcome) {
    match menu_of(m) {
        Some(menu) => item_chosen(m, menu.selected),
        None => (m, WorkspaceContextOutcome::Redraw),
    }
}

/// A key in the menu of a workspace.
pub open spec fn context_key(m: ModelView, key: TerminalKey) -> (
    ModelView,
    WorkspaceContextOutcome,
) {
    if key.kind == KeyEventKind::Release {
        (m, WorkspaceContextOutcome::Redraw)
    } else {
        match key.code {
            KeyCode::Esc => (state::overlay_closed(m), WorkspaceContextOutcome::Redraw),
            KeyCode::Up => (menu_moved_up(m), WorkspaceContextOutcome::Redraw),
            KeyCode::Char('k') => (menu_moved_up(m), WorkspaceContextOutcome::Redraw),
            KeyCode::Down => (menu_moved_down(m), WorkspaceContextOutcome::Redraw),
            KeyCode::Char('j') => (menu_moved_down(m), WorkspaceContextOutcome::Redraw),
            KeyCode::Enter => item_accepted(m),
            _ => (m, WorkspaceContextOutcome::Redraw),
        }
    }
}

/// The form with another label, and without an error.
pub open spec fn relabelled(form: RenameFormView, label: Seq<char>) -> RenameFormView {
    RenameFormView { label, error: None, ..form }
}

/// A key in the form that renames a workspace. A label of nothing but white
/// space is not submitted.
pub open spec fn rename_key(overlay: OverlayView, key: TerminalKey) -> (
    OverlayView,
    Option<(Seq<char>, Seq<char>, Seq<char>)>,
) {
    if key.kind == KeyEventKind::Release {
        (overlay, None)
    } else if key.code == KeyCode::Esc {
        (OverlayView::Closed, None)
    } else {
        match overlay {
            OverlayView::Rename(form) => match key.code {
                KeyCode::Enter => {
                    let label = text::trimmed(form.label);
                    if label.len() == 0 {
                        (
                            OverlayView::Rename(
                                RenameFormView { error: Some("label required"@), ..form },
                            ),
                            None,
                        )
                    } else {
                        (overlay, Some((form.server_id, form.workspace_id, label)))
                    }
                },
                KeyCode::Backspace => (
                    OverlayView::Rename(relabelled(form, backspaced(form.label))),
                    None,
                ),
                KeyCode::Char(c) => if c == 'u' && key.modifiers.control {
                    (OverlayView::Rename(relabelled(form, Seq::empty())), None)
                } else if input::at_most_shift(key.modifiers) {
                    (OverlayView::Rename(relabelled(form, form.label.push(c))), None)
                } else {
                    (overlay, None)
                },
                _ => (overlay, None),
            },
            _ => (overlay, None),
        }
    }
}

/// The client menu opened at its first entry.
pub open spec fn client_menu_opened(m: ModelView) -> ModelView {
    ModelView { picker: None, overlay: OverlayView::GlobalMenu(0), ..m }
}

pub open spec fn client_menu_moved_down(m: ModelView) -> ModelView {
    match highlighted(m) {
        Some(h) => highlight_set(m, state::step_down(h, state::global_menu_len())),
        None => m,
    }
}

pub open spec fn client_menu_moved_up(m: ModelView) -> ModelView {
    match highlighted(m) {
        Some(h) => highlight_set(m, state::step_up(h)),
        None => m,
    }
}

/// The client menu with the entry highlighted that the pointer is on, if it is on one.
pub open spec fn client_menu_hovered(m: ModelView, idx: Option<usize>) -> ModelView {
    match idx {
        Some(i) => highlight_set(m, state::clamped(i, state::global_menu_len())),
        None => m,
    }
}

/// What the highlighted entry of the client menu does, and the state after it.
pub open spec fn client_menu_accepted(m: ModelView) -> (ModelView, Option<ClientGlobalMenuAction>) {
    match highlighted(m) {
        Some(h) => menu_chosen(m, h),
        None => (m, None),
    }
}

/// The form that adds a remote, with text pasted into its focused field.
pub open spec fn form_pasted(m: ModelView, pasted: Seq<char>) -> ModelView {
    match form_of(m) {
        Some(form) => form_set(m, edited(form, input_of(form) + pasted)),
        None => m,
    }
}

/// The form that adds a remote, after that failed.
pub open spec fn form_failed(m: ModelView, error: Seq<char>) -> ModelView {
    match form_of(m) {
        Some(form) => form_set(
            m,
            AddRemoteFormView { error: Some(error), in_progress: false, ..form },
        ),
        None => m,
    }
}

/// The form that adds a remote, while that is going on.
pub open spec fn form_started(m: ModelView) -> ModelView {
    match form_of(m) {
        Some(form) => form_set(m, AddRemoteFormView { error: None, in_progress: true, ..form }),
        None => m,
    }
}

/// The form that adds a remote, with a question about a restart.
pub open spec fn form_asking(m: ModelView, question: RestartConfirmView) -> ModelView {
    match form_of(m) {
        Some(form) => form_set(
            m,
            AddRemoteFormView {
                in_progress: false,
                error: None,
                restart_confirm: Some(question),
                ..form
            },
        ),
        None => m,
    }
}

/// The menu of a workspace opened at its first entry.
pub open spec fn context_opened(
    m: ModelView,
    server_id: Seq<char>,
    workspace_id: Seq<char>,
    label: Seq<char>,
) -> ModelView {
    ModelView {
        picker: None,
        overlay: OverlayView::ContextMenu(
            ContextMenuView { server_id, workspace_id, label, selected: 0 },
        ),
        ..m
    }
}

/// The form that renames a workspace, with text pasted into it.
pub open spec fn rename_pasted(m: ModelView, pasted: Seq<char>) -> ModelView {
    match m.overlay {
        OverlayView::Rename(form) => ModelView {
            overlay: OverlayView::Rename(relabelled(form, form.label + pasted)),
            ..m
        },
        _ => m,
    }
}

/// The server and workspace that the open question is about.
pub open spec fn close_asked(overlay: OverlayView) -> Option<(Seq<char>, Seq<char>)> {
    match overlay {
        OverlayView::ConfirmClose(ask) => Some((ask.server_id, ask.workspace_id)),
        _ => None,
    }
}

/// A key while the question whether to close a workspace is open.
pub open spec fn close_key(overlay: OverlayView, key: TerminalKey) -> (
    OverlayView,
    Option<(Seq<char>, Seq<char>)>,
) {
    if key.kind == KeyEventKind::Release {
        (overlay, None)
    } else {
        match key.code {
            KeyCode::Enter => (overlay, close_asked(overlay)),
            KeyCode::Char('y') => (overlay, close_asked(overlay)),
            KeyCode::Char('Y') => (overlay, close_asked(overlay)),
            KeyCode::Esc => (OverlayView::Closed, None),
            KeyCode::Char('n') => (OverlayView::Closed, None),
            KeyCode::Char('N') => (OverlayView::Closed, None),
            _ => (overlay, None),
        }
    }
}

/// The remote that a form submits, where it can be submitted.
fn submit_form(form: &mut AddRemoteForm, restart: bool) -> (r: AddRemoteFormOutcome)
    ensures
        (final(form)@, r@) == submitted(old(form)@, restart),
{
    let target = text::trim(form.target.as_str());
    if target.as_str().is_empty() {
        form.error = Some("target required".to_string());
        return AddRemoteFormOutcome::Redraw;
    }
    let name = trimmed_optional(form.name.as_str());
    AddRemoteFormOutcome::Submit(
        AddRemoteDraft {
            target,
            name,
            keybindings: RemoteKeybindingsSnapshot::Local,
            restart_incompatible: restart,
        },
    )
}

fn answer_restart(form: &mut AddRemoteForm, code: KeyCode) -> (r: AddRemoteFormOutcome)
    requires
        old(form).restart_confirm is Some,
    ensures
        (final(form)@, r@) == restart_answered(
            old(form)@,
            old(form)@.restart_confirm->0,
            code,
        ),
{
    let yes = match code {
        KeyCode::Char(c) => c == 'y' || c == 'Y',
        KeyCode::Enter => true,
        _ => false,
    };
    let no = match code {
        KeyCode::Char(c) => c == 'n' || c == 'N',
        KeyCode::Esc => true,
        _ => false,
    };
    if yes {
        form.restart_confirm = None;
        return submit_form(form, true);
    }
    if no {
        match form.restart_confirm.take() {
            Some(question) => {
                form.error = Some(
                    text::join3("left ", question.destination.as_str(), " unchanged"),
                );
            },
            None => {},
        }
    }
    AddRemoteFormOutcome::Redraw
}

/// Changes the text of the focused field: adds a character, takes the last one
/// away, or clears it.
fn edit_form(form: &mut AddRemoteForm, add: Option<char>, clear: bool)
    ensures
        final(form)@ == edited(
            old(form)@,
            match add {
                Some(c) => input_of(old(form)@).push(c),
                None => if clear {
                    Seq::empty()
                } else {
                    backspaced(input_of(old(form)@))
                },
            },
        ),
{
    match form.focused_field {
        AddRemoteField::Target => match add {
            Some(c) => form.target.push(c),
            None => {
                if clear {
                    form.target.clear();
                } else {
                    let _ = form.target.pop();
                }
            },
        },
        AddRemoteField::Name => match add {
            Some(c) => form.name.push(c),
            None => {
                if clear {
                    form.name.clear();
                } else {
                    let _ = form.name.pop();
                }
            },
        },
    }
    form.error = None;
}

impl ClientSupervisorModel {
    pub fn client_global_menu_items(&self) -> (r: Vec<&'static str>)
        ensures
            r@.len() == global_menu().len(),
            forall|i: int| 0 <= i < r@.len() ==> (#[trigger] r@[i])@ == global_menu()[i],
    {
        vec![
            "settings",
            "keybinds",
            "reload config",
            "detach",
            "add remote",
            "manage remotes",
        ]
    }

    pub fn client_global_menu_highlighted(&self) -> (r: Option<usize>)
        ensures
            r == highlighted(self@),
    {
        match &self.client_overlay {
            ClientOverlayState::GlobalMenu { highlighted } => Some(*highlighted),
            _ => None,
        }
    }

    pub fn open_client_global_menu(&mut self)
        requires
            old(self).wf(),
        ensures
            final(self)@ == client_menu_opened(old(self)@),
            final(self).wf(),
    {
        self.new_workspace_picker = None;
        self.client_overlay = ClientOverlayState::GlobalMenu { highlighted: 0 };
    }

    pub fn move_client_global_menu_next(&mut self)
        requires
            old(self).wf(),
        ensures
            final(self)@ == client_menu_moved_down(old(self)@),
            final(self).wf(),
    {
        if let ClientOverlayState::GlobalMenu { highlighted } = &mut self.client_overlay {
            *highlighted = routes::step_down(*highlighted, 6);
        }
    }

    pub fn move_client_global_menu_prev(&mut self)
        requires
            old(self).wf(),
        ensures
            final(self)@ == client_menu_moved_up(old(self)@),
            final(self).wf(),
    {
        if let ClientOverlayState::GlobalMenu { highlighted } = &mut self.client_overlay {
            *highlighted = routes::step_up(*highlighted);
        }
    }

    /// Moves the highlight to the entry under the mouse, if there is one. Returns
    /// whether the highlight changed.
    pub fn hover_client_global_menu_item(&mut self, idx: Option<usize>) -> (r: bool)
        requires
            old(self).wf(),
        ensures
            final(self)@ == client_menu_hovered(old(self)@, idx),
            r == (final(self)@.overlay != old(self)@.overlay),
            final(self).wf(),
    {
        let index = match idx {
            Some(index) => index,
            None => {
                return false;
            },
        };
        if let ClientOverlayState::GlobalMenu { highlighted } = &mut self.client_overlay {
            let next = routes::clamp(index, 6);
            if *highlighted != next {
                *highlighted = next;
                return true;
            }
        }
        false
    }

    pub fn accept_client_global_menu_item(&mut self) -> (r: Option<ClientGlobalMenuAction>)
        requires
            old(self).wf(),
        ensures
            (final(self)@, r) == client_menu_accepted(old(self)@),
            final(self).wf(),
    {
        match self.client_global_menu_highlighted() {
            Some(highlighted) => self.select_client_global_menu_item(highlighted),
            None => None,
        }
    }

    pub fn select_client_global_menu_item(&mut self, index: usize) -> (r: Option<
        ClientGlobalMenuAction,
    >)
        requires
            old(self).wf(),
        ensures
            (final(self)@, r) == menu_chosen(old(self)@, index),
            final(self).wf(),
    {
        match index {
            0 => {
                self.close_client_overlay();
                Some(ClientGlobalMenuAction::Settings)
            },
            1 => {
                self.close_client_overlay();
                Some(ClientGlobalMenuAction::Keybinds)
            },
            2 => {
                self.close_client_overlay();
                Some(ClientGlobalMenuAction::ReloadConfig)
            },
            3 => {
                self.close_client_overlay();
                Some(ClientGlobalMenuAction::Detach)
            },
            4 => {
                self.open_add_remote_form();
                Some(ClientGlobalMenuAction::AddRemote)
            },
            5 => {
                self.open_remote_manage_overlay();
                Some(ClientGlobalMenuAction::ManageRemotes)
            },
            _ => None,
        }
    }

    pub fn open_add_remote_form(&mut self)
        requires
            old(self).wf(),
        ensures
            final(self)@ == add_remote_opened(old(self)@),
            final(self).wf(),
    {
        self.new_workspace_picker = None;
        self.client_overlay = ClientOverlayState::AddRemote(
            AddRemoteForm {
                target: String::new(),
                name: String::new(),
                focused_field: AddRemoteField::Target,
                error: None,
                in_progress: false,
                restart_confirm: None,
            },
        );
    }

    pub fn add_remote_form(&self) -> (r: Option<&AddRemoteForm>)
        ensures
            match r {
                Some(form) => self.client_overlay == ClientOverlayState::AddRemote(*form),
                None => !(self.client_overlay is AddRemote),
            },
    {
        match &self.client_overlay {
            ClientOverlayState::AddRemote(form) => Some(form),
            _ => None,
        }
    }

    /// Handles a key while the form that adds a remote is open.
    pub fn handle_add_remote_key(&mut self, key: TerminalKey) -> (r: AddRemoteFormOutcome)
        requires
            old(self).wf(),
        ensures
            (final(self)@.overlay, r@) == add_remote_key(old(self)@.overlay, key),
            final(self)@ == (ModelView { overlay: final(self)@.overlay, ..old(self)@ }),
            final(self).wf(),
    {
        if !key.is_down() {
            return AddRemoteFormOutcome::Redraw;
        }
        let mut close = false;
        let mut outcome = AddRemoteFormOutcome::Redraw;
        match &mut self.client_overlay {
            ClientOverlayState::AddRemote(form) => {
                if form.restart_confirm.is_some() {
                    outcome = answer_restart(form, key.code);
                } else {
                    match key.code {
                        KeyCode::Esc => {
                            close = true;
                        },
                        KeyCode::Tab | KeyCode::Down | KeyCode::Up => {
                            form.focused_field =
                            match form.focused_field {
                                AddRemoteField::Target => AddRemoteField::Name,
                                AddRemoteField::Name => AddRemoteField::Target,
                            };
                            form.error = None;
                        },
                        KeyCode::Enter => {
                            outcome = submit_form(form, false);
                        },
                        KeyCode::Backspace => {
                            edit_form(form, None, false);
                        },
                        KeyCode::Char(c) => {
                            if c == 'u' && key.modifiers.control {
                                edit_form(form, None, true);
                            } else if key.modifiers.only_shift() {
                                edit_form(form, Some(c), false);
                            }
                        },
                        _ => {},
                    }
                }
            },
            _ => {
                close = key.code == KeyCode::Esc;
            },
        }
        if close {
            self.close_client_overlay();
        }
        outcome
    }

    /// Adds pasted text to the focused field.
    pub fn append_add_remote_paste(&mut self, pasted: &str) -> (r: AddRemoteFormOutcome)
        requires
            old(self).wf(),
        ensures
            r is Redraw,
            final(self)@ == form_pasted(old(self)@, pasted@),
            final(self).wf(),
    {
        if let ClientOverlayState::AddRemote(form) = &mut self.client_overlay {
            match form.focused_field {
                AddRemoteField::Target => form.target.append(pasted),
                AddRemoteField::Name => form.name.append(pasted),
            }
            form.error = None;
        }
        AddRemoteFormOutcome::Redraw
    }

    pub fn set_add_remote_error(&mut self, error: &str)
        requires
            old(self).wf(),
        ensures
            final(self)@ == form_failed(old(self)@, error@),
            final(self).wf(),
    {
        if let ClientOverlayState::AddRemote(form) = &mut self.client_overlay {
            form.error = Some(error.to_string());
            form.in_progress = false;
        }
    }

    /// Marks the submitted remote as being connected.
    pub fn set_add_remote_in_progress(&mut self)
        requires
            old(self).wf(),
        ensures
            final(self)@ == form_started(old(self)@),
            final(self).wf(),
    {
        if let ClientOverlayState::AddRemote(form) = &mut self.client_overlay {
            form.error = None;
            form.in_progress = true;
        }
    }

    pub fn add_remote_in_progress(&self) -> (r: bool)
        ensures
            r == (form_of(self@) matches Some(form) && form.in_progress),
    {
        match &self.client_overlay {
            ClientOverlayState::AddRemote(form) => form.in_progress,
            _ => false,
        }
    }

    pub fn finish_add_remote(&mut self)
        requires
            old(self).wf(),
        ensures
            final(self)@ == state::overlay_closed(old(self)@),
            final(self).wf(),
    {
        self.close_client_overlay();
    }

    /// Asks whether to restart a remote server that cannot hand over its sessions.
    pub fn set_add_remote_restart_confirm(&mut self, destination: String, detail: String)
        requires
            old(self).wf(),
        ensures
            final(self)@ == form_asking(
                old(self)@,
                RestartConfirmView { destination: destination@, detail: detail@ },
            ),
            final(self).wf(),
    {
        if let ClientOverlayState::AddRemote(form) = &mut self.client_overlay {
            form.in_progress = false;
            form.error = None;
            form.restart_confirm = Some(AddRemoteRestartConfirm { destination, detail });
        }
    }

    pub fn add_remote_restart_confirm(&self) -> (r: Option<&AddRemoteRestartConfirm>)
        ensures
            (match r {
                Some(question) => Some(question@),
                None => None,
            }) == (match form_of(self@) {
                Some(form) => form.restart_confirm,
                None => None,
            }),
    {
        match &self.client_overlay {
            ClientOverlayState::AddRemote(form) => form.restart_confirm.as_ref(),
            _ => None,
        }
    }

    pub fn open_remote_manage_overlay(&mut self)
        requires
            old(self).wf(),
        ensures
            final(self)@ == manage_opened(old(self)@),
            final(self).wf(),
    {
        self.new_workspace_picker = None;
        self.client_overlay = ClientOverlayState::ManageRemotes(
            RemoteManageOverlay { selected: 0, scroll: 0, confirm_delete: None, pending: None },
        );
    }

    pub fn remote_manage_overlay(&self) -> (r: Option<&RemoteManageOverlay>)
        ensures
            match r {
                Some(list) => self.client_overlay == ClientOverlayState::ManageRemotes(*list),
                None => !(self.client_overlay is ManageRemotes),
            },
    {
        match &self.client_overlay {
            ClientOverlayState::ManageRemotes(list) => Some(list),
            _ => None,
        }
    }

    fn remote_count(&self) -> (r: usize)
        ensures
            r == manage_len(self@),
    {
        let rows = self.remote_manage_rows();
        assert(text::views(rows@).len() == rows@.len());
        rows.len()
    }

    pub fn move_remote_manage_next(&mut self)
        requires
            old(self).wf(),
        ensures
            final(self)@ == list_moved_down(old(self)@),
            final(self).wf(),
    {
        let count = self.remote_count();
        if let ClientOverlayState::ManageRemotes(list) = &mut self.client_overlay {
            if list.confirm_delete.is_none() {
                list.selected = routes::step_down(list.selected, count);
            }
        }
    }

    pub fn move_remote_manage_prev(&mut self)
        requires
            old(self).wf(),
        ensures
            final(self)@ == list_moved_up(old(self)@),
            final(self).wf(),
    {
        if let ClientOverlayState::ManageRemotes(list) = &mut self.client_overlay {
            if list.confirm_delete.is_none() {
                list.selected = routes::step_up(list.selected);
            }
        }
    }

    fn selected_remote_id(&self) -> (r: Option<String>)
        ensures
            text::opt_view(r) == selected_remote(self@),
    {
        let rows = self.remote_manage_rows();
        match &self.client_overlay {
            ClientOverlayState::ManageRemotes(list) => {
                if list.selected < rows.len() {
                    assert(text::views(rows@)[list.selected as int]
                        == rows@[list.selected as int]@);
                    Some(rows[list.selected].remote_id.clone())
                } else {
                    None
                }
            },
            _ => None,
        }
    }

    /// Asks for the confirmation that the selected remote is to be deleted.
    pub fn begin_remote_manage_delete(&mut self)
        requires
            old(self).wf(),
        ensures
            final(self)@ == delete_begun(old(self)@),
            final(self).wf(),
    {
        let selected = self.selected_remote_id();
        if let ClientOverlayState::ManageRemotes(list) = &mut self.client_overlay {
            if let Some(remote_id) = selected {
                list.confirm_delete = Some(remote_id);
            }
        }
    }

    pub fn cancel_remote_manage_delete(&mut self)
        requires
            old(self).wf(),
        ensures
            final(self)@ == delete_cancelled(old(self)@),
            final(self).wf(),
    {
        if let ClientOverlayState::ManageRemotes(list) = &mut self.client_overlay {
            list.confirm_delete = None;
        }
    }

    /// Selects a remote by its place in the list, or the last one.
    pub fn set_remote_manage_selected(&mut self, index: usize)
        requires
            old(self).wf(),
        ensures
            final(self)@ == list_selected(
                old(self)@,
                state::clamped(index, manage_len(old(self)@)),
            ),
            final(self).wf(),
    {
        let count = self.remote_count();
        if let ClientOverlayState::ManageRemotes(list) = &mut self.client_overlay {
            if list.confirm_delete.is_none() {
                list.selected = routes::clamp(index, count);
            }
        }
    }

    /// Settles the request about the remote that was in flight.
    pub fn clear_remote_manage_pending(&mut self, remote_id: &str)
        requires
            old(self).wf(),
        ensures
            final(self)@ == pending_cleared(old(self)@, remote_id@),
            final(self).wf(),
    {
        if let ClientOverlayState::ManageRemotes(list) = &mut self.client_overlay {
            if text::opt_is(&list.pending, remote_id) {
                list.pending = None;
            }
            if text::opt_is(&list.confirm_delete, remote_id) {
                list.confirm_delete = None;
            }
        }
    }

    /// Confirms the deletion that is being asked about.
    pub fn confirm_remote_manage_delete(&mut self) -> (r: RemoteManageOutcome)
        requires
            old(self).wf(),
        ensures
            (final(self)@, r@) == delete_confirmed(old(self)@),
            final(self).wf(),
    {
        if let ClientOverlayState::ManageRemotes(list) = &mut self.client_overlay {
            if let Some(remote_id) = text::clone_opt(&list.confirm_delete) {
                if text::opt_is(&list.pending, remote_id.as_str()) {
                    return RemoteManageOutcome::Redraw;
                }
                list.pending = Some(remote_id.clone());
                return RemoteManageOutcome::Delete { remote_id };
            }
        }
        RemoteManageOutcome::Redraw
    }

    /// Switches the selected remote on or off.
    fn toggle_selected_remote(&mut self) -> (r: RemoteManageOutcome)
        requires
            old(self).wf(),
        ensures
            (final(self)@, r@) == toggled(old(self)@),
            final(self).wf(),
    {
        let rows = self.remote_manage_rows();
        if let ClientOverlayState::ManageRemotes(list) = &mut self.client_overlay {
            if list.selected < rows.len() {
                let row = &rows[list.selected];
                assert(text::views(rows@)[list.selected as int] == row@);
                if text::opt_is(&list.pending, row.remote_id.as_str()) {
                    return RemoteManageOutcome::Redraw;
                }
                list.pending = Some(row.remote_id.clone());
                return RemoteManageOutcome::SetEnabled {
                    remote_id: row.remote_id.clone(),
                    enabled: !row.enabled,
                };
            }
        }
        RemoteManageOutcome::Redraw
    }

    /// Handles a key in the list of remotes. While a deletion is being confirmed,
    /// only the answer counts; a remote with a request in flight gets no other.
    pub fn handle_remote_manage_key(&mut self, key: TerminalKey) -> (r: RemoteManageOutcome)
        requires
            old(self).wf(),
        ensures
            (final(self)@, r@) == manage_key(old(self)@, key),
            final(self).wf(),
    {
        if !key.is_down() {
            return RemoteManageOutcome::Redraw;
        }
        let confirming = match &self.client_overlay {
            ClientOverlayState::ManageRemotes(list) => list.confirm_delete.is_some(),
            _ => {
                return RemoteManageOutcome::Redraw;
            },
        };
        if confirming {
            match key.code {
                KeyCode::Enter => {
                    return self.confirm_remote_manage_delete();
                },
                KeyCode::Char('d') => {
                    return self.confirm_remote_manage_delete();
                },
                KeyCode::Esc => {
                    self.cancel_remote_manage_delete();
                },
                _ => {},
            }
            return RemoteManageOutcome::Redraw;
        }
        match key.code {
            KeyCode::Esc => {
                self.close_client_overlay();
                RemoteManageOutcome::Redraw
            },
            KeyCode::Up => {
                self.move_remote_manage_prev();
                RemoteManageOutcome::Redraw
            },
            KeyCode::Char('k') => {
                self.move_remote_manage_prev();
                RemoteManageOutcome::Redraw
            },
            KeyCode::Down => {
                self.move_remote_manage_next();
                RemoteManageOutcome::Redraw
            },
            KeyCode::Char('j') => {
                self.move_remote_manage_next();
                RemoteManageOutcome::Redraw
            },
            KeyCode::Char(' ') => self.toggle_selected_remote(),
            KeyCode::Char('d') => {
                self.begin_remote_manage_delete();
                RemoteManageOutcome::Redraw
            },
            KeyCode::Char('a') => {
                self.open_add_remote_form();
                RemoteManageOutcome::OpenAddRemote
            },
            _ => RemoteManageOutcome::Redraw,
        }
    }

    pub fn workspace_context_menu_items(&self) -> (r: Vec<&'static str>)
        ensures
            r@.len() == state::context_menu_len(),
            r@[0]@ == "rename"@,
            r@[1]@ == "close"@,
    {
        vec!["rename", "close"]
    }

    pub fn open_workspace_context_menu(
        &mut self,
        server_id: ServerId,
        workspace_id: String,
        label: String,
    )
        requires
            old(self).wf(),
        ensures
            final(self)@ == context_opened(old(self)@, server_id@, workspace_id@, label@),
            final(self).wf(),
    {
        self.new_workspace_picker = None;
        self.client_overlay = ClientOverlayState::WorkspaceContextMenu(
            WorkspaceContextMenu { server_id, workspace_id, label, selected: 0 },
        );
    }

    pub fn workspace_context_menu(&self) -> (r: Option<&WorkspaceContextMenu>)
        ensures
            match r {
                Some(menu) => self.client_overlay == ClientOverlayState::WorkspaceContextMenu(
                    *menu,
                ),
                None => !(self.client_overlay is WorkspaceContextMenu),
            },
    {
        match &self.client_overlay {
            ClientOverlayState::WorkspaceContextMenu(menu) => Some(menu),
            _ => None,
        }
    }

    pub fn move_workspace_context_menu_next(&mut self)
        requires
            old(self).wf(),
        ensures
            final(self)@ == menu_moved_down(old(self)@),
            final(self).wf(),
    {
        if let ClientOverlayState::WorkspaceContextMenu(menu) = &mut self.client_overlay {
            menu.selected = routes::step_down(menu.selected, 2);
        }
    }

    pub fn move_workspace_context_menu_prev(&mut self)
        requires
            old(self).wf(),
        ensures
            final(self)@ == menu_moved_up(old(self)@),
            final(self).wf(),
    {
        if let ClientOverlayState::WorkspaceContextMenu(menu) = &mut self.client_overlay {
            menu.selected = routes::step_up(menu.selected);
        }
    }

    pub fn set_workspace_context_menu_selected(&mut self, index: usize)
        requires
            old(self).wf(),
        ensures
            final(self)@ == menu_selected(
                old(self)@,
                state::clamped(index, state::context_menu_len()),
            ),
            final(self).wf(),
    {
        if let ClientOverlayState::WorkspaceContextMenu(menu) = &mut self.client_overlay {
            menu.selected = routes::clamp(index, 2);
        }
    }

    pub fn select_workspace_context_menu_item(&mut self, index: usize) -> (r:
        WorkspaceContextOutcome)
        requires
            old(self).wf(),
        ensures
            (final(self)@, r) == item_chosen(old(self)@, index),
            final(self).wf(),
    {
        match index {
            0 => {
                self.open_rename_workspace();
                WorkspaceContextOutcome::OpenRename
            },
            1 => {
                self.open_confirm_close_workspace();
                WorkspaceContextOutcome::OpenConfirmClose
            },
            _ => WorkspaceContextOutcome::Redraw,
        }
    }

    pub fn accept_workspace_context_menu_item(&mut self) -> (r: WorkspaceContextOutcome)
        requires
            old(self).wf(),
        ensures
            (final(self)@, r) == item_accepted(old(self)@),
            final(self).wf(),
    {
        let selected = match &self.client_overlay {
            ClientOverlayState::WorkspaceContextMenu(menu) => menu.selected,
            _ => {
                return WorkspaceContextOutcome::Redraw;
            },
        };
        self.select_workspace_context_menu_item(selected)
    }

    /// Handles a key in the menu of a workspace.
    pub fn handle_workspace_context_menu_key(&mut self, key: TerminalKey) -> (r:
        WorkspaceContextOutcome)
        requires
            old(self).wf(),
        ensures
            (final(self)@, r) == context_key(old(self)@, key),
            final(self).wf(),
    {
        if !key.is_down() {
            return WorkspaceContextOutcome::Redraw;
        }
        match key.code {
            KeyCode::Esc => {
                self.close_client_overlay();
                WorkspaceContextOutcome::Redraw
            },
            KeyCode::Up => {
                self.move_workspace_context_menu_prev();
                WorkspaceContextOutcome::Redraw
            },
            KeyCode::Char('k') => {
                self.move_workspace_context_menu_prev();
                WorkspaceContextOutcome::Redraw
            },
            KeyCode::Down => {
                self.move_workspace_context_menu_next();
                WorkspaceContextOutcome::Redraw
            },
            KeyCode::Char('j') => {
                self.move_workspace_context_menu_next();
                WorkspaceContextOutcome::Redraw
            },
            KeyCode::Enter => self.accept_workspace_context_menu_item(),
            _ => WorkspaceContextOutcome::Redraw,
        }
    }

    /// Turns the menu of a workspace into the form that renames it.
    pub fn open_rename_workspace(&mut self)
        requires
            old(self).wf(),
        ensures
            final(self)@ == rename_opened(old(self)@),
            final(self).wf(),
    {
        let form = match &self.client_overlay {
            ClientOverlayState::WorkspaceContextMenu(menu) => RenameWorkspaceForm {
                server_id: menu.server_id.clone(),
                workspace_id: menu.workspace_id.clone(),
                label: menu.label.clone(),
                error: None,
            },
            _ => {
                return;
            },
        };
        self.client_overlay = ClientOverlayState::RenameWorkspace(form);
    }

    pub fn rename_workspace_form(&self) -> (r: Option<&RenameWorkspaceForm>)
        ensures
            match r {
                Some(form) => self.client_overlay == ClientOverlayState::RenameWorkspace(*form),
                None => !(self.client_overlay is RenameWorkspace),
            },
    {
        match &self.client_overlay {
            ClientOverlayState::RenameWorkspace(form) => Some(form),
            _ => None,
        }
    }

    /// Handles a key in the form that renames a workspace.
    pub fn handle_rename_workspace_key(&mut self, key: TerminalKey) -> (r: RenameWorkspaceOutcome)
        requires
            old(self).wf(),
        ensures
            (final(self)@.overlay, r@) == rename_key(old(self)@.overlay, key),
            final(self)@ == (ModelView { overlay: final(self)@.overlay, ..old(self)@ }),
            final(self).wf(),
    {
        if !key.is_down() {
            return RenameWorkspaceOutcome::Redraw;
        }
        if key.code == KeyCode::Esc {
            self.close_client_overlay();
            return RenameWorkspaceOutcome::Redraw;
        }
        if let ClientOverlayState::RenameWorkspace(form) = &mut self.client_overlay {
            match key.code {
                KeyCode::Enter => {
                    let label = text::trim(form.label.as_str());
                    if label.as_str().is_empty() {
                        form.error = Some("label required".to_string());
                        return RenameWorkspaceOutcome::Redraw;
                    }
                    return RenameWorkspaceOutcome::Submit {
                        server_id: form.server_id.clone(),
                        workspace_id: form.workspace_id.clone(),
                        label,
                    };
                },
                KeyCode::Backspace => {
                    let _ = form.label.pop();
                    form.error = None;
                },
                KeyCode::Char(c) => {
                    if c == 'u' && key.modifiers.control {
                        form.label.clear();
                        form.error = None;
                    } else if key.modifiers.only_shift() {
                        form.label.push(c);
                        form.error = None;
                    }
                },
                _ => {},
            }
        }
        RenameWorkspaceOutcome::Redraw
    }

    /// Adds pasted text to the label.
    pub fn append_rename_workspace_paste(&mut self, pasted: &str) -> (r: RenameWorkspaceOutcome)
        requires
            old(self).wf(),
        ensures
            r is Redraw,
            final(self)@ == rename_pasted(old(self)@, pasted@),
            final(self).wf(),
    {
        if let ClientOverlayState::RenameWorkspace(form) = &mut self.client_overlay {
            form.label.append(pasted);
            form.error = None;
        }
        RenameWorkspaceOutcome::Redraw
    }

    /// Turns the menu of a workspace into the question whether to close it.
    pub fn open_confirm_close_workspace(&mut self)
        requires
            old(self).wf(),
        ensures
            final(self)@ == close_opened(old(self)@),
            final(self).wf(),
    {
        let ask = match &self.client_overlay {
            ClientOverlayState::WorkspaceContextMenu(menu) => ConfirmCloseWorkspace {
                server_id: menu.server_id.clone(),
                workspace_id: menu.workspace_id.clone(),
                label: menu.label.clone(),
            },
            _ => {
                return;
            },
        };
        self.client_overlay = ClientOverlayState::ConfirmCloseWorkspace(ask);
    }

    pub fn confirm_close_workspace(&self) -> (r: Option<&ConfirmCloseWorkspace>)
        ensures
            match r {
                Some(ask) => self.client_overlay == ClientOverlayState::ConfirmCloseWorkspace(
                    *ask,
                ),
                None => !(self.client_overlay is ConfirmCloseWorkspace),
            },
    {
        match &self.client_overlay {
            ClientOverlayState::ConfirmCloseWorkspace(ask) => Some(ask),
            _ => None,
        }
    }

    pub fn accept_confirm_close_workspace(&mut self) -> (r: ConfirmCloseOutcome)
        ensures
            r@ == close_asked(old(self)@.overlay),
            final(self)@ == old(self)@,
    {
        match &self.client_overlay {
            ClientOverlayState::ConfirmCloseWorkspace(ask) => ConfirmCloseOutcome::Confirm {
                server_id: ask.server_id.clone(),
                workspace_id: ask.workspace_id.clone(),
            },
            _ => ConfirmCloseOutcome::Redraw,
        }
    }

    /// Handles a key while the question whether to close a workspace is open.
    pub fn handle_confirm_close_workspace_key(&mut self, key: TerminalKey) -> (r:
        ConfirmCloseOutcome)
        requires
            old(self).wf(),
        ensures
            (final(self)@.overlay, r@) == close_key(old(self)@.overlay, key),
            final(self)@ == (ModelView { overlay: final(self)@.overlay, ..old(self)@ }),
            final(self).wf(),
    {
        if !key.is_down() {
            return ConfirmCloseOutcome::Redraw;
        }
        match key.code {
            KeyCode::Enter => self.accept_confirm_close_workspace(),
            KeyCode::Char('y') => self.accept_confirm_close_workspace(),
            KeyCode::Char('Y') => self.accept_confirm_close_workspace(),
            KeyCode::Esc => {
                self.close_client_overlay();
                ConfirmCloseOutcome::Redraw
            },
            KeyCode::Char('n') => {
                self.close_client_overlay();
                ConfirmCloseOutcome::Redraw
            },
            KeyCode::Char('N') => {
                self.close_client_overlay();
                ConfirmCloseOutcome::Redraw
            },
            _ => ConfirmCloseOutcome::Redraw,
        }
    }
}

} // verus!
