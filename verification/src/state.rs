//! The configuration cascade: what holds for a monitor and a workspace,
//! given the global defaults and the overrides.

use vstd::prelude::*;
use crate::monitor::Monitor;
use crate::settings::{all_distinct, var_names, AhkVar, MonitorConfig, Settings};

verus! {

/// The features as they hold on one monitor.
#[derive(Clone, Copy, Debug, PartialEq, Eq, Structural)]
pub struct EffectiveFlags {
    pub weg_enabled: bool,
    pub tb_enabled: bool,
    pub wm_enabled: bool,
}

/// A flag on a monitor: what the monitor's override says, and the global
/// default where the override says nothing.
pub open spec fn cascade_flag(global: bool, local: Option<bool>) -> bool {
    match local {
        Some(b) => b,
        None => global,
    }
}

/// The layout of a workspace: its own, else the monitor's, else the global
/// one. An index past the monitor's workspaces names no workspace.
pub open spec fn cascade_layout(
    global: Seq<char>,
    local: Option<MonitorConfig>,
    workspace_idx: int,
) -> Seq<char> {
    match local {
        Some(config) => {
            if 0 <= workspace_idx < config.workspaces_v2@.len()
                && config.workspaces_v2@[workspace_idx].layout.is_some() {
                config.workspaces_v2@[workspace_idx].layout.unwrap()@
            } else if config.default_layout.is_some() {
                config.default_layout.unwrap()@
            } else {
                global
            }
        },
        None => global,
    }
}

/// The state that every component reads: the current settings snapshot.
#[derive(Debug)]
pub struct FullState {
    pub settings: Settings,
}

impl FullState {
    /// What the snapshot overrides for `monitor`; `None` for a monitor
    /// without a device id or without an entry.
    pub open spec fn override_for(&self, monitor: &Monitor) -> Option<MonitorConfig> {
        match monitor.device_id {
            Some(id) => if self.settings@.monitors.contains_key(id@) {
                Some(self.settings@.monitors[id@])
            } else {
                None
            },
            None => None,
        }
    }

    pub open spec fn global_flags(&self) -> EffectiveFlags {
        EffectiveFlags {
            weg_enabled: self.settings@.seelenweg_enabled,
            tb_enabled: self.settings@.fancy_toolbar_enabled,
            wm_enabled: self.settings@.window_manager_enabled,
        }
    }

    pub open spec fn flags_on(&self, monitor: &Monitor) -> EffectiveFlags {
        match self.override_for(monitor) {
            Some(config) => EffectiveFlags {
                weg_enabled: cascade_flag(self.settings@.seelenweg_enabled, config.weg_enabled),
                tb_enabled: cascade_flag(self.settings@.fancy_toolbar_enabled, config.tb_enabled),
                wm_enabled: cascade_flag(self.settings@.window_manager_enabled, config.wm_enabled),
            },
            None => self.global_flags(),
        }
    }

    pub open spec fn layout_on(&self, monitor: &Monitor, workspace_idx: int) -> Seq<char> {
        cascade_layout(self.settings@.default_layout, self.override_for(monitor), workspace_idx)
    }

    /// The state over a settings snapshot.
    pub fn new(settings: Settings) -> (state: Self)
        ensures
            state.settings == settings,
    {
        FullState { settings }
    }

    /// Puts `snapshot` in place of the current settings, as a whole, and
    /// hands the old snapshot back.
    pub fn replace_settings(&mut self, snapshot: Settings) -> (previous: Settings)
        ensures
            final(self).settings == snapshot,
            previous == old(self).settings,
    {
        let mut swapped = snapshot;
        std::mem::swap(&mut swapped, &mut self.settings);
        swapped
    }

    fn find_override(&self, monitor: &Monitor) -> (found: Option<&MonitorConfig>)
        ensures
            match found {
                Some(c) => self.override_for(monitor) == Some(*c),
                None => self.override_for(monitor).is_none(),
            },
    {
        match &monitor.device_id {
            Some(id) => self.settings.monitor_config(id),
            None => None,
        }
    }

    pub fn is_weg_enabled(&self) -> (on: bool)
        ensures
            on == self.settings@.seelenweg_enabled,
    {
        self.settings.seelenweg_enabled()
    }

    pub fn is_weg_enabled_on_monitor(&self, monitor: &Monitor) -> (on: bool)
        ensures
            on == self.flags_on(monitor).weg_enabled,
    {
        let global = self.is_weg_enabled();
        match self.find_override(monitor) {
            Some(config) => match config.weg_enabled {
                Some(local) => local,
                None => global,
            },
            None => global,
        }
    }

    pub fn is_bar_enabled(&self) -> (on: bool)
        ensures
            on == self.settings@.fancy_toolbar_enabled,
    {
        self.settings.fancy_toolbar_enabled()
    }

    pub fn is_bar_enabled_on_monitor(&self, monitor: &Monitor) -> (on: bool)
        ensures
            on == self.flags_on(monitor).tb_enabled,
    {
        let global = self.is_bar_enabled();
        match self.find_override(monitor) {
            Some(config) => match config.tb_enabled {
                Some(local) => local,
                None => global,
            },
            None => global,
        }
    }

    /// The features as they hold on `monitor`.
    pub fn resolve_flags(&self, monitor: &Monitor) -> (flags: EffectiveFlags)
        ensures
            flags == self.flags_on(monitor),
    {
        EffectiveFlags {
            weg_enabled: self.is_weg_enabled_on_monitor(monitor),
            tb_enabled: self.is_bar_enabled_on_monitor(monitor),
            wm_enabled: self.is_window_manager_enabled_on_monitor(monitor),
        }
    }

    pub fn is_window_manager_enabled(&self) -> (on: bool)
        ensures
            on == self.settings@.window_manager_enabled,
    {
        self.settings.window_manager_enabled()
    }

    pub fn is_window_manager_enabled_on_monitor(&self, monitor: &Monitor) -> (on: bool)
        ensures
            on == self.flags_on(monitor).wm_enabled,
    {
        let global = self.is_window_manager_enabled();
        match self.find_override(monitor) {
            Some(config) => match config.wm_enabled {
                Some(local) => local,
                None => global,
            },
            None => global,
        }
    }

    pub fn is_rofi_enabled(&self) -> (on: bool)
        ensures
            on == self.settings@.launcher_enabled,
    {
        self.settings.launcher_enabled()
    }

    pub fn is_wall_enabled(&self) -> (on: bool)
        ensures
            on == self.settings@.wall_enabled,
    {
        self.settings.wall_enabled()
    }

    pub fn is_ahk_enabled(&self) -> (on: bool)
        ensures
            on == self.settings@.ahk_enabled,
    {
        self.settings.ahk_enabled()
    }

    /// A copy of the hotkey variables, in the snapshot's order. No two of
    /// them have one name.
    pub fn get_ahk_variables(&self) -> (vars: Vec<AhkVar>)
        ensures
            vars@ == self.settings@.ahk_variables,
            all_distinct(var_names(vars@)),
    {
        let source = self.settings.ahk_variables();
        let mut vars: Vec<AhkVar> = Vec::new();
        let mut i: usize = 0;
        while i < source.len()
            invariant
                i <= source.len(),
                vars@ == source@.subrange(0, i as int),
            decreases source.len() - i,
        {
            let var = &source[i];
            vars.push(
                AhkVar {
                    name: var.name.clone(),
                    fancy: var.fancy.clone(),
                    ahk: var.ahk.clone(),
                },
            );
            assert(vars@ =~= source@.subrange(0, i + 1));
            i += 1;
        }
        assert(vars@ =~= source@);
        vars
    }

    pub fn get_wm_layout_id(&self, monitor: &Monitor, workspace_idx: usize) -> (layout: String)
        ensures
            layout@ == self.layout_on(monitor, workspace_idx as int),
    {
        match self.find_override(monitor) {
            Some(config) => {
                if workspace_idx < config.workspaces_v2.len() {
                    match &config.workspaces_v2[workspace_idx].layout {
                        Some(layout) => {
                            return layout.clone();
                        },
                        None => {},
                    }
                }
                match &config.default_layout {
                    Some(layout) => layout.clone(),
                    None => self.settings.default_layout().clone(),
                }
            },
            None => self.settings.default_layout().clone(),
        }
    }

    /// The layout of workspace `workspace_idx` of `monitor`.
    pub fn resolve_layout(&self, monitor: &Monitor, workspace_idx: usize) -> (layout: String)
        ensures
            layout@ == self.layout_on(monitor, workspace_idx as int),
    {
        self.get_wm_layout_id(monitor, workspace_idx)
    }
}

/// The snapshot holds no entry for the monitor: it has no device id, or
/// the override map does not hold its id.
pub open spec fn has_no_entry(state: &FullState, monitor: &Monitor) -> bool {
    match monitor.device_id {
        Some(id) => !state.settings@.monitors.contains_key(id@),
        None => true,
    }
}

/// On a monitor without an entry in the override map every flag has its
/// global value.
pub proof fn lemma_flags_default_without_entry(state: &FullState, monitor: &Monitor)
    requires
        has_no_entry(state, monitor),
    ensures
        state.flags_on(monitor) == state.global_flags(),
        state.flags_on(monitor).weg_enabled == state.settings@.seelenweg_enabled,
        state.flags_on(monitor).tb_enabled == state.settings@.fancy_toolbar_enabled,
        state.flags_on(monitor).wm_enabled == state.settings@.window_manager_enabled,
{
}

/// A flag that the override leaves out has its global value; a flag that
/// the override sets has the value set there, whatever the global one is.
pub proof fn lemma_flag_fallback(global: bool, local: Option<bool>)
    ensures
        local.is_none() ==> cascade_flag(global, local) == global,
        forall|b: bool| local == Some(b) ==> cascade_flag(global, local) == b,
{
}

/// On a monitor with an entry in the override map, each flag that the entry
/// sets has the value set there, and each that it leaves out has its global
/// value.
pub proof fn lemma_flags_with_entry(state: &FullState, monitor: &Monitor)
    requires
        !has_no_entry(state, monitor),
    ensures
        ({
            let entry = state.settings@.monitors[monitor.device_id.unwrap()@];
            let global = state.global_flags();
            let flags = state.flags_on(monitor);
            &&& flags.weg_enabled == cascade_flag(global.weg_enabled, entry.weg_enabled)
            &&& flags.tb_enabled == cascade_flag(global.tb_enabled, entry.tb_enabled)
            &&& flags.wm_enabled == cascade_flag(global.wm_enabled, entry.wm_enabled)
        }),
{
}

/// First level of the layout cascade: a workspace that names a layout gets
/// it, whatever the monitor and the global default say.
pub proof fn lemma_layout_workspace_level(
    global: Seq<char>,
    config: MonitorConfig,
    workspace_idx: int,
)
    requires
        0 <= workspace_idx < config.workspaces_v2@.len(),
        config.workspaces_v2@[workspace_idx].layout.is_some(),
    ensures
        cascade_layout(global, Some(config), workspace_idx)
            == config.workspaces_v2@[workspace_idx].layout.unwrap()@,
{
}

/// Second level: where the workspace names none (it does not exist, or has
/// no layout of its own), the monitor's default layout holds.
pub proof fn lemma_layout_monitor_level(
    global: Seq<char>,
    config: MonitorConfig,
    workspace_idx: int,
)
    requires
        !(0 <= workspace_idx < config.workspaces_v2@.len())
            || config.workspaces_v2@[workspace_idx].layout.is_none(),
        config.default_layout.is_some(),
    ensures
        cascade_layout(global, Some(config), workspace_idx) == config.default_layout.unwrap()@,
{
}

/// Third level: where neither the workspace nor the monitor names a layout,
/// or the monitor has no override at all, the global default holds.
pub proof fn lemma_layout_global_level(
    global: Seq<char>,
    local: Option<MonitorConfig>,
    workspace_idx: int,
)
    requires
        match local {
            Some(config) => config.default_layout.is_none() && (!(0 <= workspace_idx
                < config.workspaces_v2@.len())
                || config.workspaces_v2@[workspace_idx].layout.is_none()),
            None => true,
        },
    ensures
        cascade_layout(global, local, workspace_idx) == global,
{
}

/// A monitor without an entry in the override map has the global default
/// layout on every workspace.
pub proof fn lemma_layout_default_without_entry(
    state: &FullState,
    monitor: &Monitor,
    workspace_idx: int,
)
    requires
        has_no_entry(state, monitor),
    ensures
        state.layout_on(monitor, workspace_idx) == state.settings@.default_layout,
{
}

} // verus!
