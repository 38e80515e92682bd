//! The settings snapshot: global defaults and the per-monitor overrides.

use vstd::prelude::*;

verus! {

/// Settings of one virtual workspace of a monitor.
#[derive(Clone, Debug)]
pub struct WorkspaceConfig {
    /// Layout chosen for this workspace, if any.
    pub layout: Option<String>,
}

/// What one monitor overrides. An absent field means "as the level above".
#[derive(Clone, Debug)]
pub struct MonitorConfig {
    pub weg_enabled: Option<bool>,
    pub tb_enabled: Option<bool>,
    pub wm_enabled: Option<bool>,
    /// Layout of every workspace of this monitor that names none itself.
    pub default_layout: Option<String>,
    pub workspaces_v2: Vec<WorkspaceConfig>,
}

/// One entry of the override map: a device id and what that monitor overrides.
#[derive(Clone, Debug)]
pub struct MonitorEntry {
    pub device_id: String,
    pub config: MonitorConfig,
}

/// A variable handed to the hotkey engine.
#[derive(Clone, Debug)]
pub struct AhkVar {
    pub name: String,
    pub fancy: String,
    pub ahk: String,
}

/// The index of the first of `keys` that equals `key`, if there is one.
pub open spec fn first_index(keys: Seq<Seq<char>>, key: Seq<char>) -> Option<int>
    decreases keys.len(),
{
    if keys.len() == 0 {
        None
    } else if keys[0] == key {
        Some(0int)
    } else {
        match first_index(keys.drop_first(), key) {
            Some(i) => Some(i + 1),
            None => None,
        }
    }
}

/// No key occurs twice.
pub open spec fn all_distinct(keys: Seq<Seq<char>>) -> bool {
    forall|i: int, j: int| 0 <= i < j < keys.len() ==> keys[i] != keys[j]
}

/// The names of `vars`, in their order.
pub open spec fn var_names(vars: Seq<AhkVar>) -> Seq<Seq<char>> {
    Seq::new(vars.len(), |i: int| vars[i].name@)
}

/// `vars` with `var` in the place of the variable of its name, or at the
/// end where no variable has that name.
pub open spec fn with_var(vars: Seq<AhkVar>, var: AhkVar) -> Seq<AhkVar> {
    match first_index(var_names(vars), var.name@) {
        Some(i) => vars.update(i, var),
        None => vars.push(var),
    }
}

spec fn entry_keys(entries: Seq<MonitorEntry>) -> Seq<Seq<char>> {
    Seq::new(entries.len(), |i: int| entries[i].device_id@)
}

spec fn override_map(entries: Seq<MonitorEntry>) -> Map<Seq<char>, MonitorConfig> {
    Map::new(
        |id: Seq<char>| first_index(entry_keys(entries), id).is_some(),
        |id: Seq<char>| entries[first_index(entry_keys(entries), id).unwrap()].config,
    )
}

/// `first_index` finds a key exactly when it occurs, and then where it
/// occurs first.
pub proof fn lemma_first_index(keys: Seq<Seq<char>>, key: Seq<char>)
    ensures
        match first_index(keys, key) {
            Some(i) => 0 <= i < keys.len() && keys[i] == key && forall|j: int|
                0 <= j < i ==> keys[j] != key,
            None => forall|j: int| 0 <= j < keys.len() ==> keys[j] != key,
        },
    decreases keys.len(),
{
    if keys.len() > 0 && keys[0] != key {
        let rest = keys.drop_first();
        lemma_first_index(rest, key);
        match first_index(rest, key) {
            Some(i) => {
                assert forall|j: int| 0 <= j < i + 1 implies keys[j] != key by {
                    if j > 0 {
                        assert(rest[j - 1] == keys[j]);
                    }
                }
            },
            None => {
                assert forall|j: int| 0 <= j < keys.len() implies keys[j] != key by {
                    if j > 0 {
                        assert(rest[j - 1] == keys[j]);
                    }
                }
            },
        }
    }
}

/// Where `key` is found at `at`, or nowhere, says `first_index` so.
proof fn lemma_found_at(keys: Seq<Seq<char>>, key: Seq<char>, at: Option<int>)
    requires
        match at {
            Some(i) => 0 <= i < keys.len() && keys[i] == key && forall|j: int|
                0 <= j < i ==> keys[j] != key,
            None => forall|j: int| 0 <= j < keys.len() ==> keys[j] != key,
        },
    ensures
        first_index(keys, key) == at,
{
    lemma_first_index(keys, key);
    match (first_index(keys, key), at) {
        (Some(a), Some(b)) => {
            if a < b {
                assert(keys[a] != key);
            } else if b < a {
                assert(keys[b] != key);
            }
        },
        (Some(a), None) => {
            assert(keys[a] != key);
        },
        (None, Some(b)) => {
            assert(keys[b] != key);
        },
        (None, None) => {},
    }
}

/// The settings as a value: the global defaults, the hotkey variables, and
/// the overrides as a map from device id to what that monitor overrides. A
/// device id that the map does not hold has no override.
pub struct SettingsModel {
    pub seelenweg_enabled: bool,
    pub fancy_toolbar_enabled: bool,
    pub window_manager_enabled: bool,
    pub default_layout: Seq<char>,
    pub launcher_enabled: bool,
    pub wall_enabled: bool,
    pub ahk_enabled: bool,
    pub ahk_variables: Seq<AhkVar>,
    pub monitors: Map<Seq<char>, MonitorConfig>,
}

impl SettingsModel {
    /// No two hotkey variables have one name.
    pub open spec fn wf(self) -> bool {
        all_distinct(var_names(self.ahk_variables))
    }
}

/// The settings snapshot. A reader never edits it; a writer builds a new
/// one and puts it in place of the old as a whole.
#[derive(Debug)]
pub struct Settings {
    seelenweg_enabled: bool,
    fancy_toolbar_enabled: bool,
    window_manager_enabled: bool,
    default_layout: String,
    launcher_enabled: bool,
    wall_enabled: bool,
    ahk_enabled: bool,
    ahk_variables: Vec<AhkVar>,
    monitors_v2: Vec<MonitorEntry>,
}

impl View for Settings {
    type V = SettingsModel;

    closed spec fn view(&self) -> SettingsModel {
        SettingsModel {
            seelenweg_enabled: self.seelenweg_enabled,
            fancy_toolbar_enabled: self.fancy_toolbar_enabled,
            window_manager_enabled: self.window_manager_enabled,
            default_layout: self.default_layout@,
            launcher_enabled: self.launcher_enabled,
            wall_enabled: self.wall_enabled,
            ahk_enabled: self.ahk_enabled,
            ahk_variables: self.ahk_variables@,
            monitors: override_map(self.monitors_v2@),
        }
    }
}

impl Settings {
    /// Neither a device id nor the name of a variable occurs twice.
    #[verifier::type_invariant]
    spec fn inv(&self) -> bool {
        all_distinct(entry_keys(self.monitors_v2@)) && all_distinct(var_names(self.ahk_variables@))
    }

    /// A snapshot with these global defaults, no hotkey variable and no
    /// override.
    pub fn new(
        seelenweg_enabled: bool,
        fancy_toolbar_enabled: bool,
        window_manager_enabled: bool,
        default_layout: String,
        launcher_enabled: bool,
        wall_enabled: bool,
        ahk_enabled: bool,
    ) -> (settings: Self)
        ensures
            settings@ == (SettingsModel {
                seelenweg_enabled,
                fancy_toolbar_enabled,
                window_manager_enabled,
                default_layout: default_layout@,
                launcher_enabled,
                wall_enabled,
                ahk_enabled,
                ahk_variables: Seq::empty(),
                monitors: Map::empty(),
            }),
    {
        let settings = Settings {
            seelenweg_enabled,
            fancy_toolbar_enabled,
            window_manager_enabled,
            default_layout,
            launcher_enabled,
            wall_enabled,
            ahk_enabled,
            ahk_variables: Vec::new(),
            monitors_v2: Vec::new(),
        };
        assert(override_map(settings.monitors_v2@) =~= Map::<Seq<char>, MonitorConfig>::empty());
        settings
    }

    pub fn seelenweg_enabled(&self) -> (on: bool)
        ensures
            on == self@.seelenweg_enabled,
    {
        self.seelenweg_enabled
    }

    pub fn fancy_toolbar_enabled(&self) -> (on: bool)
        ensures
            on == self@.fancy_toolbar_enabled,
    {
        self.fancy_toolbar_enabled
    }

    pub fn window_manager_enabled(&self) -> (on: bool)
        ensures
            on == self@.window_manager_enabled,
    {
        self.window_manager_enabled
    }

    pub fn launcher_enabled(&self) -> (on: bool)
        ensures
            on == self@.launcher_enabled,
    {
        self.launcher_enabled
    }

    pub fn wall_enabled(&self) -> (on: bool)
        ensures
            on == self@.wall_enabled,
    {
        self.wall_enabled
    }

    pub fn ahk_enabled(&self) -> (on: bool)
        ensures
            on == self@.ahk_enabled,
    {
        self.ahk_enabled
    }

    pub fn default_layout(&self) -> (layout: &String)
        ensures
            layout@ == self@.default_layout,
    {
        &self.default_layout
    }

    /// The hotkey variables. No two of them have one name.
    pub fn ahk_variables(&self) -> (vars: &Vec<AhkVar>)
        ensures
            vars@ == self@.ahk_variables,
            self@.wf(),
    {
        proof {
            use_type_invariant(self);
        }
        &self.ahk_variables
    }

    /// Sets the hotkey variable of this name, in place of the one that had
    /// the name, or as a new one behind the others.
    pub fn insert_ahk_variable(&mut self, var: AhkVar)
        ensures
            final(self)@ == (SettingsModel {
                ahk_variables: with_var(old(self)@.ahk_variables, var),
                ..old(self)@
            }),
            final(self)@.wf(),
    {
        proof {
            use_type_invariant(&*self);
        }
        let mut vars: Vec<AhkVar> = Vec::new();
        std::mem::swap(&mut vars, &mut self.ahk_variables);
        let ghost before = vars@;
        let ghost names = var_names(before);
        let ghost name = var.name@;
        let mut at: Option<usize> = None;
        let mut i: usize = 0;
        while i < vars.len() && at.is_none()
            invariant
                i <= vars.len(),
                vars@ == before,
                names == var_names(before),
                name == var.name@,
                at.is_some() ==> at.unwrap() == i && i < before.len() && names[i as int] == name,
                forall|j: int| 0 <= j < i ==> names[j] != name,
            decreases vars.len() - i + (if at.is_none() { 1int } else { 0int }),
        {
            if vars[i].name == var.name {
                at = Some(i);
            } else {
                i += 1;
            }
        }
        proof {
            lemma_found_at(
                names,
                name,
                match at {
                    Some(k) => Some(k as int),
                    None => None,
                },
            );
        }
        match at {
            Some(k) => {
                vars.set(k, var);
            },
            None => {
                vars.push(var);
            },
        }
        proof {
            let after = var_names(vars@);
            assert forall|a: int, b: int| 0 <= a < b < after.len() implies after[a] != after[b] by {
                if a < names.len() && a != i {
                    assert(after[a] == names[a]);
                }
                if b < names.len() && b != i {
                    assert(after[b] == names[b]);
                }
            }
        }
        self.ahk_variables = vars;
    }

    /// Sets what the monitor `device_id` overrides, in place of anything
    /// that the map held for it. No other monitor is touched.
    pub fn insert_monitor(&mut self, device_id: String, config: MonitorConfig)
        ensures
            final(self)@ == (SettingsModel {
                monitors: old(self)@.monitors.insert(device_id@, config),
                ..old(self)@
            }),
    {
        proof {
            use_type_invariant(&*self);
        }
        let mut entries: Vec<MonitorEntry> = Vec::new();
        std::mem::swap(&mut entries, &mut self.monitors_v2);
        let ghost before = entries@;
        let ghost keys = entry_keys(before);
        let ghost id = device_id@;
        let mut at: Option<usize> = None;
        let mut i: usize = 0;
        while i < entries.len() && at.is_none()
            invariant
                i <= entries.len(),
                entries@ == before,
                keys == entry_keys(before),
                id == device_id@,
                at.is_some() ==> at.unwrap() == i && i < before.len() && keys[i as int] == id,
                forall|j: int| 0 <= j < i ==> keys[j] != id,
            decreases entries.len() - i + (if at.is_none() { 1int } else { 0int }),
        {
            if entries[i].device_id == device_id {
                at = Some(i);
            } else {
                i += 1;
            }
        }
        let entry = MonitorEntry { device_id, config };
        match at {
            Some(k) => {
                entries.set(k, entry);
            },
            None => {
                entries.push(entry);
            },
        }
        proof {
            let after = entry_keys(entries@);
            assert forall|a: int, b: int| 0 <= a < b < after.len() implies after[a] != after[b] by {
                if a < keys.len() && a != i {
                    assert(after[a] == keys[a]);
                }
                if b < keys.len() && b != i {
                    assert(after[b] == keys[b]);
                }
            }
            assert(after[i as int] == id);
            assert forall|other: Seq<char>|
                #![trigger first_index(after, other)]
                first_index(after, other).is_some() == (other == id || first_index(
                    keys,
                    other,
                ).is_some()) && (first_index(after, other).is_some() ==> entries@[first_index(
                    after,
                    other,
                ).unwrap()].config == if other == id {
                    config
                } else {
                    before[first_index(keys, other).unwrap()].config
                }) by {
                lemma_first_index(after, other);
                lemma_first_index(keys, other);
                let a = first_index(after, other);
                let b = first_index(keys, other);
                if other == id {
                    if a.is_none() {
                        assert(after[i as int] != other);
                    } else if a.unwrap() != i {
                        assert(after[a.unwrap()] == keys[a.unwrap()]);
                    }
                } else {
                    if b.is_some() {
                        assert(after[b.unwrap()] == keys[b.unwrap()]);
                        assert(entries@[b.unwrap()] == before[b.unwrap()]);
                    }
                    if a.is_some() {
                        assert(after[a.unwrap()] == keys[a.unwrap()]);
                        assert(entries@[a.unwrap()] == before[a.unwrap()]);
                    }
                    if a.is_some() && b.is_some() && a.unwrap() != b.unwrap() {
                        if a.unwrap() < b.unwrap() {
                            assert(keys[a.unwrap()] != other);
                        } else {
                            assert(after[b.unwrap()] != other);
                        }
                    }
                }
            }
            assert(override_map(entries@) =~= override_map(before).insert(id, config));
        }
        self.monitors_v2 = entries;
    }

    /// Looks a device id up in the override map.
    pub fn monitor_config(&self, id: &String) -> (found: Option<&MonitorConfig>)
        ensures
            match found {
                Some(c) => self@.monitors.contains_key(id@) && self@.monitors[id@] == *c,
                None => !self@.monitors.contains_key(id@),
            },
    {
        let ghost keys = entry_keys(self.monitors_v2@);
        let mut i: usize = 0;
        while i < self.monitors_v2.len()
            invariant
                i <= self.monitors_v2.len(),
                keys == entry_keys(self.monitors_v2@),
                forall|j: int| 0 <= j < i ==> keys[j] != id@,
            decreases self.monitors_v2.len() - i,
        {
            if self.monitors_v2[i].device_id == *id {
                proof {
                    assert(keys[i as int] == id@);
                    lemma_found_at(keys, id@, Some(i as int));
                }
                return Some(&self.monitors_v2[i].config);
            }
            i += 1;
        }
        proof {
            lemma_found_at(keys, id@, None);
        }
        None
    }
}

} // verus!
