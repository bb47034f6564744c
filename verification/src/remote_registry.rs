//! The remotes that the main server has on record.

use vstd::prelude::*;
use crate::text;

verus! {

/// Whose key bindings apply in the workspaces of a remote.
#[derive(Debug, Clone, Copy, PartialEq, Eq, Structural)]
pub enum RemoteKeybindingsSnapshot {
    Local,
    Server,
}

/// How a remote is reached.
#[derive(Debug, PartialEq, Eq)]
pub enum RemoteTargetSnapshot {
    Local { session: Option<String> },
    Ssh { target: String, args: Vec<String> },
}

/// What a target says: a session on this machine, or an ssh destination with
/// further ssh options.
#[verifier::ext_equal]
pub enum TargetView {
    Main,
    LocalSession(Option<Seq<char>>),
    Ssh { destination: Seq<char>, options: Seq<Seq<char>> },
}

impl View for RemoteTargetSnapshot {
    type V = TargetView;

    open spec fn view(&self) -> TargetView {
        match self {
            RemoteTargetSnapshot::Local { session } => TargetView::LocalSession(
                text::opt_view(*session),
            ),
            RemoteTargetSnapshot::Ssh { target, args } => TargetView::Ssh {
                destination: target@,
                options: text::views(args@),
            },
        }
    }
}

impl Clone for RemoteTargetSnapshot {
    fn clone(&self) -> (r: Self)
        ensures
            r@ == self@,
    {
        match self {
            RemoteTargetSnapshot::Local { session } => RemoteTargetSnapshot::Local {
                session: text::clone_opt(session),
            },
            RemoteTargetSnapshot::Ssh { target, args } => RemoteTargetSnapshot::Ssh {
                target: target.clone(),
                args: text::clone_all(args),
            },
        }
    }
}

/// A remote on record.
#[derive(Debug, PartialEq, Eq)]
pub struct RemoteDefinitionSnapshot {
    pub id: String,
    pub name: String,
    pub target: RemoteTargetSnapshot,
    pub session: Option<String>,
    pub keybindings: RemoteKeybindingsSnapshot,
    pub disabled: bool,
}

/// What a `RemoteDefinitionSnapshot` holds.
#[verifier::ext_equal]
pub struct RemoteView {
    pub id: Seq<char>,
    pub name: Seq<char>,
    pub target: TargetView,
    pub session: Option<Seq<char>>,
    pub keybindings: RemoteKeybindingsSnapshot,
    pub disabled: bool,
}

impl View for RemoteDefinitionSnapshot {
    type V = RemoteView;

    open spec fn view(&self) -> RemoteView {
        RemoteView {
            id: self.id@,
            name: self.name@,
            target: self.target@,
            session: text::opt_view(self.session),
            keybindings: self.keybindings,
            disabled: self.disabled,
        }
    }
}

impl Clone for RemoteDefinitionSnapshot {
    fn clone(&self) -> (r: Self)
        ensures
            r@ == self@,
    {
        let r = RemoteDefinitionSnapshot {
            id: self.id.clone(),
            name: self.name.clone(),
            target: self.target.clone(),
            session: text::clone_opt(&self.session),
            keybindings: self.keybindings,
            disabled: self.disabled,
        };
        r
    }
}

} // verus!
