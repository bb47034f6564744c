//! What the keys do in the menus, forms and questions of the client, and where
//! requests go.

use vstd::prelude::*;
use crate::api::{MethodView, RequestView};
use crate::client::overlays;
use crate::client::plan_laws::{first_with, law_servers_are_found_by_id, unknown};
use crate::client::routes;
use crate::client::rows;
use crate::client::state::{self, ModelView};
use crate::client::types::{
    AddRemoteField, AddRemoteFormView, ClientGlobalMenuAction, ContextMenuView, FocusRouteView,
    FocusTargetView, ManageOutcomeView, ManageView, NewRouteView, OverlayView, RenameFormView,
    RestartConfirmView, WorkspaceContextOutcome,
};
use crate::input::{KeyCode, KeyEventKind, KeyModifiers, TerminalKey};
use crate::remote_registry::RemoteKeybindingsSnapshot;
use crate::text;

verus! {

/// The press of a key without modifiers.
pub open spec fn press(code: KeyCode) -> TerminalKey {
    TerminalKey {
        code,
        modifiers: KeyModifiers {
            shift: false,
            control: false,
            alt: false,
            super_key: false,
            hyper: false,
            meta: false,
        },
        kind: KeyEventKind::Press,
    }
}

/// The press of a key with control held down.
pub open spec fn with_control(code: KeyCode) -> TerminalKey {
    let plain = press(code);
    TerminalKey { modifiers: KeyModifiers { control: true, ..plain.modifiers }, ..plain }
}

/// Whether the form has the texts, and is else as it was but for the error.
pub open spec fn reads(
    next: AddRemoteFormView,
    form: AddRemoteFormView,
    target: Seq<char>,
    name: Seq<char>,
) -> bool {
    &&& next.target == target
    &&& next.name == name
    &&& next.focused_field == form.focused_field
    &&& next.in_progress == form.in_progress
    &&& next.restart_confirm == form.restart_confirm
    &&& next.error is None
}

/// A typed character goes to the end of the field that has the focus, the other
/// field stays, and an error goes away. Backspace takes the character back, and
/// control-u empties the field. Nothing of this submits the form.
pub proof fn law_typing_edits_the_focused_field(form: AddRemoteFormView, c: char)
    requires
        form.restart_confirm is None,
    ensures
        ({
            let (typed, sent) = overlays::add_remote_key(
                OverlayView::AddRemote(form),
                press(KeyCode::Char(c)),
            );
            let (back, back_sent) = overlays::add_remote_key(typed, press(KeyCode::Backspace));
            let (cleared, cleared_sent) = overlays::add_remote_key(
                OverlayView::AddRemote(form),
                with_control(KeyCode::Char('u')),
            );
            let at_target = form.focused_field == AddRemoteField::Target;
            &&& sent is None && back_sent is None && cleared_sent is None
            &&& typed is AddRemote && back is AddRemote && cleared is AddRemote
            &&& at_target ==> reads(typed->AddRemote_0, form, form.target.push(c), form.name)
            &&& !at_target ==> reads(typed->AddRemote_0, form, form.target, form.name.push(c))
            &&& reads(back->AddRemote_0, form, form.target, form.name)
            &&& at_target ==> reads(cleared->AddRemote_0, form, Seq::empty(), form.name)
            &&& !at_target ==> reads(cleared->AddRemote_0, form, form.target, Seq::empty())
        }),
{
    assert(form.target.push(c).drop_last() =~= form.target);
    assert(form.name.push(c).drop_last() =~= form.name);
}

/// Shift makes no difference to what a typed character does.
pub proof fn law_shift_types_too(form: AddRemoteFormView, rename: RenameFormView, c: char)
    requires
        form.restart_confirm is None,
    ensures
        ({
            let plain = press(KeyCode::Char(c));
            let shifted = TerminalKey {
                modifiers: KeyModifiers { shift: true, ..plain.modifiers },
                ..plain
            };
            &&& overlays::add_remote_key(OverlayView::AddRemote(form), shifted)
                == overlays::add_remote_key(OverlayView::AddRemote(form), plain)
            &&& overlays::rename_key(OverlayView::Rename(rename), shifted) == overlays::rename_key(
                OverlayView::Rename(rename),
                plain,
            )
        }),
{
}

/// A key that is held down does what it does when it is pressed.
pub proof fn law_held_keys_repeat(m: ModelView, key: TerminalKey)
    requires
        key.kind == KeyEventKind::Repeat,
    ensures
        ({
            let pressed = TerminalKey { kind: KeyEventKind::Press, ..key };
            &&& overlays::add_remote_key(m.overlay, key) == overlays::add_remote_key(
                m.overlay,
                pressed,
            )
            &&& overlays::manage_key(m, key) == overlays::manage_key(m, pressed)
            &&& overlays::context_key(m, key) == overlays::context_key(m, pressed)
            &&& overlays::rename_key(m.overlay, key) == overlays::rename_key(m.overlay, pressed)
            &&& overlays::close_key(m.overlay, key) == overlays::close_key(m.overlay, pressed)
        }),
{
}

/// A character that is typed with a modifier other than shift edits nothing, except
/// for control-u.
pub proof fn law_other_modifiers_type_nothing(
    form: AddRemoteFormView,
    rename: RenameFormView,
    key: TerminalKey,
)
    requires
        form.restart_confirm is None,
        key.code is Char,
        key.modifiers.control || key.modifiers.alt || key.modifiers.super_key
            || key.modifiers.hyper || key.modifiers.meta,
        key.code != KeyCode::Char('u') || !key.modifiers.control,
    ensures
        overlays::add_remote_key(OverlayView::AddRemote(form), key).0 == OverlayView::AddRemote(
            form,
        ),
        overlays::add_remote_key(OverlayView::AddRemote(form), key).1 is None,
        overlays::rename_key(OverlayView::Rename(rename), key).0 == OverlayView::Rename(rename),
        overlays::rename_key(OverlayView::Rename(rename), key).1 is None,
{
}

/// The tab key and the arrows go to the other field and back; escape closes the
/// form.
pub proof fn law_tab_goes_to_the_other_field(form: AddRemoteFormView, code: KeyCode)
    requires
        form.restart_confirm is None,
        code == KeyCode::Tab || code == KeyCode::Up || code == KeyCode::Down,
    ensures
        ({
            let (once, sent) = overlays::add_remote_key(OverlayView::AddRemote(form), press(code));
            let (twice, again) = overlays::add_remote_key(once, press(code));
            &&& once is AddRemote && twice is AddRemote && sent is None && again is None
            &&& once->AddRemote_0.focused_field != form.focused_field
            &&& once->AddRemote_0.target == form.target && once->AddRemote_0.name == form.name
            &&& reads(twice->AddRemote_0, form, form.target, form.name)
        }),
        overlays::add_remote_key(OverlayView::AddRemote(form), press(KeyCode::Esc))
            == (OverlayView::Closed, None::<crate::client::types::AddRemoteDraftView>),
{
}

/// Where another overlay is open, escape closes it and no other key of the form does
/// anything.
pub proof fn law_the_form_needs_to_be_open(overlay: OverlayView, code: KeyCode)
    requires
        !(overlay is AddRemote),
    ensures
        overlays::add_remote_key(overlay, press(code)).1 is None,
        code == KeyCode::Esc ==> overlays::add_remote_key(overlay, press(code)).0 is Closed,
        code != KeyCode::Esc ==> overlays::add_remote_key(overlay, press(code)).0 == overlay,
        !(overlay is Rename) && code != KeyCode::Esc ==> overlays::rename_key(
            overlay,
            press(code),
        ).0 == overlay,
        !(overlay is Rename) ==> overlays::rename_key(overlay, press(code)).1 is None,
{
}

/// Without the list of remotes, or the menu of a workspace, their keys send nothing.
pub proof fn law_closed_lists_send_nothing(m: ModelView, code: KeyCode)
    ensures
        !(m.overlay is ManageRemotes) ==> overlays::manage_key(m, press(code)) == (
            m,
            ManageOutcomeView::Redraw,
        ),
        !(m.overlay is ContextMenu) ==> overlays::context_key(m, press(code)).1
            == WorkspaceContextOutcome::Redraw,
        !(m.overlay is ContextMenu) && code != KeyCode::Esc ==> overlays::context_key(
            m,
            press(code),
        ).0 == m,
        m.overlay matches OverlayView::ManageRemotes(list) && list.confirm_delete is None && code
            != KeyCode::Esc && code != KeyCode::Up && code != KeyCode::Down && code
            != KeyCode::Char('k') && code != KeyCode::Char('j') && code != KeyCode::Char(' ')
            && code != KeyCode::Char('d') && code != KeyCode::Char('a') ==> overlays::manage_key(
            m,
            press(code),
        ) == (m, ManageOutcomeView::Redraw),
{
}

/// Submitting the form needs a target that is not blank. The remote to add then has
/// the trimmed target, the trimmed name unless that is blank, and the local key
/// bindings; nothing is restarted on its account. Without a target nothing is
/// submitted and the form says why.
pub proof fn law_submitting_needs_a_target(form: AddRemoteFormView)
    requires
        form.restart_confirm is None,
    ensures
        ({
            let (next, sent) = overlays::add_remote_key(
                OverlayView::AddRemote(form),
                press(KeyCode::Enter),
            );
            let blank = text::trimmed(form.target).len() == 0;
            &&& blank <==> sent is None
            &&& next is AddRemote
            &&& blank ==> next->AddRemote_0.error == Some("target required"@)
            &&& !blank ==> next->AddRemote_0 == form
            &&& !blank ==> {
                &&& sent->0.target == text::trimmed(form.target)
                &&& text::trimmed(form.name).len() == 0 ==> sent->0.name is None
                &&& text::trimmed(form.name).len() > 0 ==> sent->0.name == Some(
                    text::trimmed(form.name),
                )
                &&& sent->0.keybindings == RemoteKeybindingsSnapshot::Local
                &&& !sent->0.restart_incompatible
            }
            &&& next->AddRemote_0.target == form.target && next->AddRemote_0.name == form.name
        }),
{
}

/// Agreeing to the restart submits the same remote with the approval; declining
/// submits nothing and says that the host was left alone. Either way the question
/// is gone and the texts stay.
pub proof fn law_the_restart_question_is_answered(
    form: AddRemoteFormView,
    question: RestartConfirmView,
    code: KeyCode,
)
    requires
        form.restart_confirm == Some(question),
        text::trimmed(form.target).len() > 0,
    ensures
        ({
            let (next, sent) = overlays::add_remote_key(OverlayView::AddRemote(form), press(code));
            let yes = code == KeyCode::Char('y') || code == KeyCode::Char('Y') || code
                == KeyCode::Enter;
            let no = code == KeyCode::Char('n') || code == KeyCode::Char('N') || code
                == KeyCode::Esc;
            &&& next is AddRemote && next->AddRemote_0.target == form.target
                && next->AddRemote_0.name == form.name
            &&& yes <==> sent is Some
            &&& yes ==> sent->0.restart_incompatible && sent->0.target == text::trimmed(form.target)
                && next->AddRemote_0.restart_confirm is None
            &&& no ==> next->AddRemote_0.restart_confirm is None && next->AddRemote_0.error == Some(
                "left "@ + question.destination + " unchanged"@,
            )
            &&& !yes && !no ==> next->AddRemote_0 == form
        }),
{
}

/// The entries of the client menu, and what each does: the first four close the
/// menu, and the last two open what they name.
pub proof fn law_menu_entries_do_what_they_say(m: ModelView, index: usize)
    ensures
        overlays::global_menu().len() == 6,
        ({
            let (next, action) = overlays::menu_chosen(m, index);
            let name = overlays::global_menu()[index as int];
            &&& index >= 6 ==> action is None && next == m
            &&& index < 6 ==> action is Some
            &&& action == Some(ClientGlobalMenuAction::Settings) ==> name == "settings"@
            &&& action == Some(ClientGlobalMenuAction::Keybinds) ==> name == "keybinds"@
            &&& action == Some(ClientGlobalMenuAction::ReloadConfig) ==> name == "reload config"@
            &&& action == Some(ClientGlobalMenuAction::Detach) ==> name == "detach"@
            &&& action == Some(ClientGlobalMenuAction::AddRemote) ==> name == "add remote"@
            &&& action == Some(ClientGlobalMenuAction::ManageRemotes) ==> name
                == "manage remotes"@
            &&& action is Some && action != Some(ClientGlobalMenuAction::AddRemote) && action
                != Some(ClientGlobalMenuAction::ManageRemotes) ==> next == (ModelView {
                overlay: OverlayView::Closed,
                ..m
            })
            &&& action == Some(ClientGlobalMenuAction::AddRemote) ==> next.overlay is AddRemote
                && next.picker is None
            &&& action == Some(ClientGlobalMenuAction::ManageRemotes) ==> next.overlay
                is ManageRemotes && next.picker is None
            &&& next.servers == m.servers && next.filter == m.filter && next.active == m.active
        }),
{
}

/// A form that is opened is empty and its first field has the focus; a list that is
/// opened is at its top. Either closes the picker.
pub proof fn law_what_is_opened_is_fresh(m: ModelView)
    ensures
        ({
            let form = overlays::add_remote_opened(m);
            let list = overlays::manage_opened(m);
            &&& form.overlay matches OverlayView::AddRemote(f) && f.target.len() == 0
                && f.name.len() == 0 && f.focused_field == AddRemoteField::Target && f.error is None
                && !f.in_progress && f.restart_confirm is None
            &&& list.overlay matches OverlayView::ManageRemotes(l) && l.selected == 0 && l.scroll
                == 0 && l.confirm_delete is None && l.pending is None
            &&& form == (ModelView { overlay: form.overlay, picker: None, ..m })
            &&& list == (ModelView { overlay: list.overlay, picker: None, ..m })
        }),
{
}

/// Whether the list of remotes is open at a remote that is there, and nothing is
/// being asked.
pub open spec fn listing(m: ModelView, list: ManageView) -> bool {
    &&& m.overlay == OverlayView::ManageRemotes(list)
    &&& list.confirm_delete is None
    &&& list.selected < rows::manage_rows(m.servers).len() <= usize::MAX
}

/// In the list of remotes, the keys move the selection by one, within the list, and
/// send nothing; escape closes the list.
pub proof fn law_keys_move_in_the_list(m: ModelView, list: ManageView)
    requires
        listing(m, list),
    ensures
        ({
            let n = rows::manage_rows(m.servers).len();
            let down = ModelView {
                overlay: OverlayView::ManageRemotes(
                    ManageView {
                        selected: if list.selected + 1 < n {
                            (list.selected + 1) as usize
                        } else {
                            list.selected
                        },
                        ..list
                    },
                ),
                ..m
            };
            let up = ModelView {
                overlay: OverlayView::ManageRemotes(
                    ManageView {
                        selected: if list.selected > 0 {
                            (list.selected - 1) as usize
                        } else {
                            list.selected
                        },
                        ..list
                    },
                ),
                ..m
            };
            &&& overlays::manage_key(m, press(KeyCode::Down)) == (down, ManageOutcomeView::Redraw)
            &&& overlays::manage_key(m, press(KeyCode::Char('j'))) == (
                down,
                ManageOutcomeView::Redraw,
            )
            &&& overlays::manage_key(m, press(KeyCode::Up)) == (up, ManageOutcomeView::Redraw)
            &&& overlays::manage_key(m, press(KeyCode::Char('k'))) == (
                up,
                ManageOutcomeView::Redraw,
            )
            &&& overlays::manage_key(m, press(KeyCode::Esc)) == (
                ModelView { overlay: OverlayView::Closed, ..m },
                ManageOutcomeView::Redraw,
            )
            &&& overlays::manage_key(m, press(KeyCode::Char('a'))).1
                == ManageOutcomeView::OpenAddRemote
            &&& overlays::manage_key(m, press(KeyCode::Char('a'))).0.overlay is AddRemote
        }),
{
}

/// The space key asks to switch the selected remote to what it is not, once: while
/// the request is pending, the key does nothing for that remote.
pub proof fn law_space_switches_the_selected_remote(m: ModelView, list: ManageView)
    requires
        listing(m, list),
    ensures
        ({
            let row = rows::manage_rows(m.servers)[list.selected as int];
            let (next, asked) = overlays::manage_key(m, press(KeyCode::Char(' ')));
            &&& list.pending == Some(row.remote_id) ==> asked is Redraw && next == m
            &&& list.pending != Some(row.remote_id) ==> {
                &&& asked == (ManageOutcomeView::SetEnabled {
                    remote_id: row.remote_id,
                    enabled: !row.enabled,
                })
                &&& next == (ModelView {
                    overlay: OverlayView::ManageRemotes(
                        ManageView { pending: Some(row.remote_id), ..list },
                    ),
                    ..m
                })
            }
        }),
{
}

/// Deleting takes two steps. The first key only asks, about the selected remote;
/// then enter, or the key again, deletes that one, escape takes the question back,
/// and every other key does nothing.
pub proof fn law_deleting_takes_two_steps(m: ModelView, list: ManageView, code: KeyCode)
    requires
        listing(m, list),
    ensures
        ({
            let row = rows::manage_rows(m.servers)[list.selected as int];
            let (asking, first) = overlays::manage_key(m, press(KeyCode::Char('d')));
            let (next, second) = overlays::manage_key(asking, press(code));
            &&& first is Redraw
            &&& asking == (ModelView {
                overlay: OverlayView::ManageRemotes(
                    ManageView { confirm_delete: Some(row.remote_id), ..list },
                ),
                ..m
            })
            &&& code == KeyCode::Esc ==> next == m && second is Redraw
            &&& (code == KeyCode::Enter || code == KeyCode::Char('d')) && list.pending != Some(
                row.remote_id,
            ) ==> second == (ManageOutcomeView::Delete { remote_id: row.remote_id })
            &&& code != KeyCode::Enter && code != KeyCode::Char('d') ==> second is Redraw
            &&& code != KeyCode::Enter && code != KeyCode::Char('d') && code != KeyCode::Esc
                ==> next == asking
        }),
{
}

/// An answer about a remote clears what was pending for it, and the question about
/// it, and nothing of another remote.
pub proof fn law_answers_clear_what_was_pending(m: ModelView, list: ManageView, id: Seq<char>)
    requires
        m.overlay == OverlayView::ManageRemotes(list),
    ensures
        ({
            let next = overlays::pending_cleared(m, id);
            &&& next.overlay is ManageRemotes
            &&& list.pending == Some(id) ==> next.overlay->ManageRemotes_0.pending is None
            &&& list.pending != Some(id) ==> next.overlay->ManageRemotes_0.pending == list.pending
            &&& list.confirm_delete == Some(id) ==> next.overlay->ManageRemotes_0.confirm_delete
                is None
            &&& list.confirm_delete != Some(id) ==> next.overlay->ManageRemotes_0.confirm_delete
                == list.confirm_delete
            &&& next.overlay->ManageRemotes_0.selected == list.selected
            &&& next == (ModelView { overlay: next.overlay, ..m })
        }),
{
}

/// While a deletion is being confirmed the selection stays where it is.
pub proof fn law_a_question_holds_the_selection(m: ModelView, list: ManageView, index: usize)
    requires
        m.overlay == OverlayView::ManageRemotes(list),
    ensures
        list.confirm_delete is Some ==> overlays::list_moved_down(m) == m && overlays::list_moved_up(
            m,
        ) == m && overlays::list_selected(m, index) == m,
        list.confirm_delete is None ==> overlays::list_selected(m, index) == (ModelView {
            overlay: OverlayView::ManageRemotes(ManageView { selected: index, ..list }),
            ..m
        }),
        !(m.overlay is ManageRemotes) ==> overlays::list_selected(m, index) == m,
{
}

/// The menu of a workspace has two entries: the first renames that workspace,
/// starting from its label, and the second asks whether to close it.
pub proof fn law_the_workspace_menu(m: ModelView, menu: ContextMenuView)
    requires
        m.overlay == OverlayView::ContextMenu(menu),
        menu.selected < 2,
    ensures
        ({
            let at = |k: usize|
                ModelView {
                    overlay: OverlayView::ContextMenu(ContextMenuView { selected: k, ..menu }),
                    ..m
                };
            let (chosen, outcome) = overlays::context_key(m, press(KeyCode::Enter));
            &&& overlays::context_key(m, press(KeyCode::Down)).0 == at(1)
            &&& overlays::context_key(m, press(KeyCode::Char('j'))).0 == at(1)
            &&& overlays::context_key(m, press(KeyCode::Up)).0 == at(0)
            &&& overlays::context_key(m, press(KeyCode::Char('k'))).0 == at(0)
            &&& overlays::context_key(m, press(KeyCode::Esc)).0 == (ModelView {
                overlay: OverlayView::Closed,
                ..m
            })
            &&& menu.selected == 0 ==> outcome == WorkspaceContextOutcome::OpenRename
                && chosen.overlay is Rename && chosen.overlay->Rename_0.server_id == menu.server_id
                && chosen.overlay->Rename_0.workspace_id == menu.workspace_id
                && chosen.overlay->Rename_0.label == menu.label && chosen.overlay->Rename_0.error
                is None
            &&& menu.selected == 1 ==> outcome == WorkspaceContextOutcome::OpenConfirmClose
                && chosen.overlay is ConfirmClose && chosen.overlay->ConfirmClose_0.server_id
                == menu.server_id && chosen.overlay->ConfirmClose_0.workspace_id
                == menu.workspace_id && chosen.overlay->ConfirmClose_0.label == menu.label
            &&& chosen == (ModelView { overlay: chosen.overlay, ..m })
        }),
{
}

/// Renaming edits the label as the keys say. Enter sends the trimmed label for the
/// workspace that the form is about, unless it is blank; escape closes the form.
pub proof fn law_renaming_sends_the_label(form: RenameFormView, c: char)
    ensures
        ({
            let (typed, sent) = overlays::rename_key(
                OverlayView::Rename(form),
                press(KeyCode::Char(c)),
            );
            let (back, _) = overlays::rename_key(typed, press(KeyCode::Backspace));
            let (cleared, _) = overlays::rename_key(
                OverlayView::Rename(form),
                with_control(KeyCode::Char('u')),
            );
            let (entered, renamed) = overlays::rename_key(
                OverlayView::Rename(form),
                press(KeyCode::Enter),
            );
            let plain = RenameFormView { error: None, ..form };
            &&& sent is None
            &&& typed == OverlayView::Rename(RenameFormView { label: form.label.push(c), ..plain })
            &&& back == OverlayView::Rename(plain)
            &&& cleared == OverlayView::Rename(RenameFormView { label: Seq::empty(), ..plain })
            &&& text::trimmed(form.label).len() == 0 ==> renamed is None && entered
                == OverlayView::Rename(
                RenameFormView { error: Some("label required"@), ..form },
            )
            &&& text::trimmed(form.label).len() > 0 ==> renamed == Some(
                (form.server_id, form.workspace_id, text::trimmed(form.label)),
            ) && entered == OverlayView::Rename(form)
            &&& overlays::rename_key(OverlayView::Rename(form), press(KeyCode::Esc)) == (
                OverlayView::Closed,
                None::<(Seq<char>, Seq<char>, Seq<char>)>,
            )
        }),
{
    assert(form.label.push(c).drop_last() =~= form.label);
}

/// A workspace is closed only by a yes to the question about it; a no closes the
/// question, and any other key leaves it.
pub proof fn law_closing_needs_a_yes(overlay: OverlayView, code: KeyCode)
    ensures
        ({
            let (next, closed) = overlays::close_key(overlay, press(code));
            let yes = code == KeyCode::Char('y') || code == KeyCode::Char('Y') || code
                == KeyCode::Enter;
            let no = code == KeyCode::Char('n') || code == KeyCode::Char('N') || code
                == KeyCode::Esc;
            &&& closed is Some <==> yes && overlay is ConfirmClose
            &&& overlay is ConfirmClose && yes ==> closed == Some(
                (overlay->ConfirmClose_0.server_id, overlay->ConfirmClose_0.workspace_id),
            )
            &&& no ==> next is Closed
            &&& !no ==> next == overlay
        }),
{
}

/// A new workspace is asked for on the server that the route names, with the focus
/// and nothing else; a route that names none leads to no request.
pub proof fn law_routes_lead_to_requests(route: NewRouteView, id: Seq<char>)
    ensures
        ({
            let request = routes::create_request(route, id);
            request is Some <==> route is CreateOn
        }),
        routes::create_request(route, id) matches Some((server, request)) ==> {
            &&& route == NewRouteView::CreateOn(server)
            &&& request.id == id
            &&& request.method matches MethodView::WorkspaceCreate { cwd, focus, label, env } && cwd
                is None && focus && label is None && env.len() == 0
        },
{
}

/// A focus route leads to a request for what it names, under the given id.
pub proof fn law_focus_routes_lead_to_requests(route: FocusRouteView, id: Seq<char>)
    ensures
        ({
            let request = routes::focus_request(route, id);
            &&& request is None <==> route is Unavailable || route is NotFound
            &&& route is Workspace ==> request == Some(
                RequestView { id, method: MethodView::WorkspaceFocus(route->workspace_id) },
            )
            &&& route is Agent ==> request == Some(
                RequestView { id, method: MethodView::AgentFocus(route->target) },
            )
        }),
{
}

/// A workspace or an agent is focused where its server is connected and has it: the
/// server gets the focus, and the target looks focused until the server reports.
/// Where the server is not connected, or does not have it, nothing changes.
pub proof fn law_focusing_needs_a_connected_server(
    m: ModelView,
    server: Seq<char>,
    at: int,
    k: int,
    id: Seq<char>,
)
    ensures
        ({
            let (w, w_route) = routes::workspace_focused(m, server, id);
            let (a, a_route) = routes::agent_focused(m, server, id);
            &&& unknown(m.servers, server) ==> w == m && a == m && w_route is NotFound && a_route
                is NotFound
            &&& first_with(m.servers, at, server) && !(m.servers[at].connection_state is Connected)
                ==> {
                &&& w == m && a == m
                &&& w_route is Unavailable && w_route->Unavailable_server_id == server
                &&& a_route is Unavailable && a_route->Unavailable_server_id == server
            }
            &&& first_with(m.servers, at, server) && m.servers[at].connection_state is Connected
                && has_workspace(m, at, k, id) ==> {
                &&& w_route == (FocusRouteView::Workspace { server_id: server, workspace_id: id })
                &&& w == (ModelView {
                    picker: None,
                    active: server,
                    optimistic: Some((server, FocusTargetView::Workspace(id))),
                    ..m
                })
            }
            &&& first_with(m.servers, at, server) && m.servers[at].connection_state is Connected
                && has_agent(m, at, k, id) ==> {
                &&& a_route == (FocusRouteView::Agent { server_id: server, target: id })
                &&& a == (ModelView {
                    picker: None,
                    active: server,
                    optimistic: Some((server, FocusTargetView::Agent(id))),
                    ..m
                })
            }
            &&& first_with(m.servers, at, server) && m.servers[at].connection_state is Connected
                && (forall|j: int| !has_workspace(m, at, j, id)) ==> w == m && w_route is NotFound
            &&& first_with(m.servers, at, server) && m.servers[at].connection_state is Connected
                && (forall|j: int| !has_agent(m, at, j, id)) ==> a == m && a_route is NotFound
        }),
{
    law_servers_are_found_by_id(m.servers, at, server);
    if first_with(m.servers, at, server) {
        let s = m.servers[at].summaries;
        let ws = routes::workspace_ids(s.workspaces);
        let ags = routes::agent_ids(s.agents);
        if has_workspace(m, at, k, id) {
            assert(ws[k] == id);
        }
        if has_agent(m, at, k, id) {
            assert(ags[k] == id);
        }
        if ws.contains(id) {
            let j = choose|j: int| 0 <= j < ws.len() && ws[j] == id;
            assert(has_workspace(m, at, j, id));
        }
        if ags.contains(id) {
            let j = choose|j: int| 0 <= j < ags.len() && ags[j] == id;
            assert(has_agent(m, at, j, id));
        }
    }
}

/// Whether the workspace at `k` of the server at `at` has the id.
pub open spec fn has_workspace(m: ModelView, at: int, k: int, id: Seq<char>) -> bool {
    0 <= k < m.servers[at].summaries.workspaces.len()
        && m.servers[at].summaries.workspaces[k].workspace_id == id
}

/// Whether the agent at `k` of the server at `at` has the id.
pub open spec fn has_agent(m: ModelView, at: int, k: int, id: Seq<char>) -> bool {
    0 <= k < m.servers[at].summaries.agents.len() && m.servers[at].summaries.agents[k].agent_id
        == id
}

/// The client menu opens at its first entry and closes the picker; the highlight moves by
/// one entry and stays on the menu, and follows the pointer. Accepting does what the
/// highlighted entry does.
pub proof fn law_the_client_menu(m: ModelView, h: usize, i: usize)
    requires
        m.overlay == OverlayView::GlobalMenu(h),
        h < 6,
    ensures
        ({
            let at = |k: usize| ModelView { overlay: OverlayView::GlobalMenu(k), ..m };
            &&& h < 5 ==> overlays::client_menu_moved_down(m) == at((h + 1) as usize)
            &&& h == 5 ==> overlays::client_menu_moved_down(m) == m
            &&& h > 0 ==> overlays::client_menu_moved_up(m) == at((h - 1) as usize)
            &&& h == 0 ==> overlays::client_menu_moved_up(m) == m
            &&& i < 6 ==> overlays::client_menu_hovered(m, Some(i)) == at(i)
            &&& i >= 6 ==> overlays::client_menu_hovered(m, Some(i)) == at(5)
            &&& overlays::client_menu_hovered(m, None) == m
            &&& overlays::client_menu_accepted(m) == overlays::menu_chosen(m, h)
            &&& overlays::highlighted(m) == Some(h)
        }),
        forall|n: ModelView|
            #![trigger overlays::client_menu_opened(n)]
            overlays::client_menu_opened(n) == (ModelView {
                picker: None,
                overlay: OverlayView::GlobalMenu(0),
                ..n
            }),
{
}

/// Without the menu, its keys do nothing.
pub proof fn law_a_closed_menu_does_nothing(m: ModelView, i: usize)
    requires
        !(m.overlay is GlobalMenu),
    ensures
        overlays::client_menu_moved_down(m) == m,
        overlays::client_menu_moved_up(m) == m,
        overlays::client_menu_hovered(m, Some(i)) == m,
        overlays::client_menu_accepted(m).0 == m && overlays::client_menu_accepted(m).1 is None,
        overlays::highlighted(m) is None,
{
}

/// Pasted text goes to the end of the field that has the focus, as if it were typed.
pub proof fn law_pasting_is_typing(form: AddRemoteFormView, m: ModelView, pasted: Seq<char>)
    requires
        m.overlay == OverlayView::AddRemote(form),
    ensures
        ({
            let next = overlays::form_pasted(m, pasted);
            &&& next == (ModelView { overlay: next.overlay, ..m }) && next.overlay is AddRemote
            &&& form.focused_field == AddRemoteField::Target ==> reads(
                next.overlay->AddRemote_0,
                form,
                form.target + pasted,
                form.name,
            )
            &&& form.focused_field == AddRemoteField::Name ==> reads(
                next.overlay->AddRemote_0,
                form,
                form.target,
                form.name + pasted,
            )
        }),
        forall|n: ModelView|
            #![trigger overlays::form_pasted(n, pasted)]
            !(n.overlay is AddRemote) ==> overlays::form_pasted(n, pasted) == n,
{
}

/// Pasting into the form that renames a workspace adds to its label.
pub proof fn law_pasting_adds_to_the_label(form: RenameFormView, m: ModelView, pasted: Seq<char>)
    ensures
        m.overlay == OverlayView::Rename(form) ==> overlays::rename_pasted(m, pasted) == (
        ModelView {
            overlay: OverlayView::Rename(
                RenameFormView { label: form.label + pasted, error: None, ..form },
            ),
            ..m
        }),
        !(m.overlay is Rename) ==> overlays::rename_pasted(m, pasted) == m,
{
}

/// The form keeps its texts while the remote is being added. It is busy until that fails
/// or a question comes up; a failure shows its error, and a question shows none.
pub proof fn law_the_form_follows_the_connection(
    form: AddRemoteFormView,
    m: ModelView,
    error: Seq<char>,
    question: RestartConfirmView,
)
    requires
        m.overlay == OverlayView::AddRemote(form),
    ensures
        ({
            let kept = |next: ModelView|
                next == (ModelView { overlay: next.overlay, ..m }) && next.overlay is AddRemote
                    && next.overlay->AddRemote_0.target == form.target
                    && next.overlay->AddRemote_0.name == form.name
                    && next.overlay->AddRemote_0.focused_field == form.focused_field;
            let started = overlays::form_started(m);
            let failed = overlays::form_failed(m, error);
            let asking = overlays::form_asking(m, question);
            &&& kept(started) && kept(failed) && kept(asking)
            &&& started.overlay->AddRemote_0.in_progress
                && started.overlay->AddRemote_0.error is None
                && started.overlay->AddRemote_0.restart_confirm == form.restart_confirm
            &&& !failed.overlay->AddRemote_0.in_progress && failed.overlay->AddRemote_0.error
                == Some(error) && failed.overlay->AddRemote_0.restart_confirm
                == form.restart_confirm
            &&& !asking.overlay->AddRemote_0.in_progress
                && asking.overlay->AddRemote_0.error is None
                && asking.overlay->AddRemote_0.restart_confirm == Some(question)
        }),
        forall|n: ModelView|
            #![trigger overlays::form_started(n)]
            !(n.overlay is AddRemote) ==> overlays::form_started(n) == n && overlays::form_failed(
                n,
                error,
            ) == n && overlays::form_asking(n, question) == n,
{
}

/// The menu of a workspace opens at its first entry, for the workspace that it was opened
/// on, and closes the picker.
pub proof fn law_the_workspace_menu_opens(
    m: ModelView,
    server_id: Seq<char>,
    workspace_id: Seq<char>,
    label: Seq<char>,
)
    ensures
        ({
            let next = overlays::context_opened(m, server_id, workspace_id, label);
            &&& next == (ModelView { overlay: next.overlay, picker: None, ..m })
            &&& next.overlay matches OverlayView::ContextMenu(menu) && menu.server_id == server_id
                && menu.workspace_id == workspace_id && menu.label == label && menu.selected == 0
        }),
{
}

/// The focus goes to a server that is there, and stays where it is else; going to the main
/// server closes the picker.
pub proof fn law_the_focus_goes_to_known_servers(m: ModelView, id: Seq<char>, i: int)
    ensures
        first_with(m.servers, i, id) ==> state::activated(m, id) == (ModelView { active: id, ..m }),
        unknown(m.servers, id) ==> state::activated(m, id) == m,
        state::main_activated(m) == (ModelView { active: "main"@, picker: None, ..m }),
{
    law_servers_are_found_by_id(m.servers, i, id);
}

} // verus!
