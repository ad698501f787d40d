//! Commands run when an empty workspace gets focus.
use vstd::prelude::*;
use crate::config::{Config, EmptyWorkspaceConfig};
use crate::window::{PiriEvent, Window};
use crate::workspace::{opt_view, resolve_entry, resolve_workspace_config};

verus! {

/// Workspace identifier to command.
#[derive(Debug, Clone)]
pub struct EmptyPluginConfig {
    pub workspaces: Vec<(String, String)>,
}

pub open spec fn commands_of(empty: Seq<(String, EmptyWorkspaceConfig)>) -> Seq<(String, String)> {
    Seq::new(empty.len(), |i: int| (empty[i].0, empty[i].1.command))
}

impl EmptyPluginConfig {
    pub fn default() -> (r: Self)
        ensures
            r.workspaces@.len() == 0,
    {
        EmptyPluginConfig { workspaces: Vec::new() }
    }

    /// The rules from the `[empty]` tables, or else from the plugin switch section;
    /// no plugin without rules.
    pub fn from_config(config: Config) -> (r: Option<Self>)
        ensures
            ({
                let ws = if config.empty@.len() > 0 {
                    commands_of(config.empty@)
                } else {
                    match config.piri.plugins.empty_config {
                        Some(c) => c.workspaces@,
                        None => Seq::empty(),
                    }
                };
                if ws.len() == 0 {
                    r is None
                } else {
                    r matches Some(c) && c.workspaces@ == ws
                }
            }),
    {
        let workspaces: Vec<(String, String)> = if config.empty.len() > 0 {
            let mut w: Vec<(String, String)> = Vec::new();
            let n = config.empty.len();
            let mut i: usize = 0;
            while i < n
                invariant
                    n == config.empty@.len(),
                    0 <= i <= n,
                    w@ =~= commands_of(config.empty@).subrange(0, i as int),
                decreases n - i,
            {
                w.push((config.empty[i].0.clone(), config.empty[i].1.command.clone()));
                i = i + 1;
            }
            assert(w@ =~= commands_of(config.empty@));
            w
        } else {
            match config.piri.plugins.empty_config {
                Some(c) => c.workspaces,
                None => Vec::new(),
            }
        };
        if workspaces.len() == 0 {
            None
        } else {
            Some(EmptyPluginConfig { workspaces })
        }
    }
}

/// Runs a configured command when switching to an empty workspace.
pub struct EmptyPlugin {
    pub config: EmptyPluginConfig,
}

impl EmptyPlugin {
    pub fn new(config: EmptyPluginConfig) -> (r: Self)
        ensures
            r.config == config,
    {
        EmptyPlugin { config }
    }

    pub fn update_config(&mut self, config: EmptyPluginConfig)
        ensures
            final(self).config == config,
    {
        self.config = config;
    }

    pub fn is_interested_in_event(&self, event: &PiriEvent) -> (r: bool)
        ensures
            r == event is WorkspaceActivated,
    {
        match event {
            PiriEvent::WorkspaceActivated { .. } => true,
            _ => false,
        }
    }

    /// The workspace whose emptiness is to be checked: one that was activated with focus.
    pub fn activated_workspace(event: &PiriEvent) -> (r: Option<u64>)
        ensures
            match event {
                PiriEvent::WorkspaceActivated { id, focused } => r == (if *focused { Some(*id) } else { None }),
                _ => r is None,
            },
    {
        match event {
            PiriEvent::WorkspaceActivated { id, focused } => if *focused {
                Some(*id)
            } else {
                None
            },
            _ => None,
        }
    }

    /// The command to run for a focused workspace that is empty; nothing when it is not empty.
    pub fn command_for<'a>(&'a self, idx: u8, name: Option<&str>, output: Option<&str>, is_empty: bool) -> (r: Option<&'a String>)
        ensures
            !is_empty ==> r is None,
            is_empty ==> match resolve_entry(self.config.workspaces@, idx as nat, opt_view(name), opt_view(output)) {
                Some(i) => (r matches Some(v) && *v == self.config.workspaces@[i].1),
                None => r is None,
            },
    {
        if !is_empty {
            return None;
        }
        resolve_workspace_config(&self.config.workspaces, idx, name, output)
    }
}

/// No window is on the workspace.
pub fn workspace_is_empty(windows: &[Window], workspace_id: u64) -> (r: bool)
    ensures
        r == !exists|k: int| 0 <= k < windows@.len() && #[trigger] windows@[k].workspace_id == Some(workspace_id),
{
    let n = windows.len();
    let mut k: usize = 0;
    while k < n
        invariant
            n == windows@.len(),
            0 <= k <= n,
            forall|j: int| 0 <= j < k ==> #[trigger] windows@[j].workspace_id != Some(workspace_id),
        decreases n - k,
    {
        if windows[k].workspace_id == Some(workspace_id) {
            return false;
        }
        k = k + 1;
    }
    true
}

} // verus!
