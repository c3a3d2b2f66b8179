//! Properties of the configuration logic as a whole.

use vstd::prelude::*;

use super::merge::merged_matches;
use super::set::{
    all_accepted, file_error, inherits, is_first_error, load_outcome, name_taken, unnamed,
    ConfigDirScan, ConfigSet, UserConfigDir, UserConfigFile,
};
use super::error::ConfigLoadError;
use super::file_name::{file_extension, lemma_last_dot_is_dot, last_dot};
use super::Configs;
use crate::event::KeyModifier;
use crate::matcher::{has_trigger, Match};

verus! {

broadcast use {Seq::lemma_filter_contains_rev, Seq::lemma_filter_pred, Seq::lemma_filter_contains};

/// When a user-defined configuration redefines a trigger of the default
/// configuration, its own definition wins: every inherited match with that
/// trigger is one of its own.
pub proof fn lemma_child_definition_wins(child: Seq<Match>, parent: Seq<Match>, t: Seq<char>)
    requires
        has_trigger(child, t),
    ensures
        forall|m: Match| #[trigger]
            merged_matches(child, parent).contains(m) && m.trigger@ == t ==> child.contains(m),
{
    let keep = |m: Match| !has_trigger(child, m.trigger@);
    assert forall|m: Match| #[trigger]
        merged_matches(child, parent).contains(m) && m.trigger@ == t implies child.contains(m) by {
        let merged = merged_matches(child, parent);
        let k = choose|k: int| 0 <= k < merged.len() && merged[k] == m;
        if k >= child.len() {
            let f = parent.filter(keep);
            assert(f[k - child.len()] == m);
            assert(keep(f[k - child.len()]));
        } else {
            assert(child[k] == m);
        }
    }
}

/// Every match of a user-defined configuration is kept when it inherits the
/// matches of the default one, in its order and ahead of the inherited ones.
pub proof fn lemma_own_matches_kept(child: Seq<Match>, parent: Seq<Match>)
    ensures
        merged_matches(child, parent).take(child.len() as int) =~= child,
{
}

/// A match of the default configuration whose trigger the user-defined
/// configuration does not redefine is inherited.
pub proof fn lemma_parent_match_inherited(child: Seq<Match>, parent: Seq<Match>, m: Match)
    requires
        parent.contains(m),
        !has_trigger(child, m.trigger@),
    ensures
        merged_matches(child, parent).contains(m),
{
    let keep = |x: Match| !has_trigger(child, x.trigger@);
    let i = choose|i: int| 0 <= i < parent.len() && parent[i] == m;
    assert(keep(parent[i]));
    assert(parent.filter(keep).contains(parent[i]));
    let f = parent.filter(keep);
    let j = choose|j: int| 0 <= j < f.len() && f[j] == m;
    assert(merged_matches(child, parent)[child.len() + j] == m);
}

/// The inherited matches come from nowhere else than the two configurations.
pub proof fn lemma_merged_match_origin(child: Seq<Match>, parent: Seq<Match>, m: Match)
    requires
        merged_matches(child, parent).contains(m),
    ensures
        child.contains(m) || parent.contains(m),
{
    let keep = |x: Match| !has_trigger(child, x.trigger@);
    let merged = merged_matches(child, parent);
    let k = choose|k: int| 0 <= k < merged.len() && merged[k] == m;
    if k >= child.len() {
        let f = parent.filter(keep);
        assert(f[k - child.len()] == m);
        assert(f.contains(m));
    } else {
        assert(child[k] == m);
    }
}

/// The triggers of the inherited matches are those of the user-defined
/// configuration together with those of the default one.
pub proof fn lemma_merged_triggers(child: Seq<Match>, parent: Seq<Match>, t: Seq<char>)
    ensures
        has_trigger(merged_matches(child, parent), t) <==> (has_trigger(child, t) || has_trigger(
            parent,
            t,
        )),
{
    let merged = merged_matches(child, parent);
    if has_trigger(merged, t) {
        let k = choose|k: int| 0 <= k < merged.len() && (#[trigger] merged[k]).trigger@ == t;
        assert(merged.contains(merged[k]));
        lemma_merged_match_origin(child, parent, merged[k]);
        if parent.contains(merged[k]) && !child.contains(merged[k]) {
            let j = choose|j: int| 0 <= j < parent.len() && parent[j] == merged[k];
            assert(parent[j].trigger@ == t);
        } else {
            let j = choose|j: int| 0 <= j < child.len() && child[j] == merged[k];
            assert(child[j].trigger@ == t);
        }
    }
    if has_trigger(child, t) {
        let j = choose|j: int| 0 <= j < child.len() && (#[trigger] child[j]).trigger@ == t;
        assert(merged[j] == child[j]);
    } else if has_trigger(parent, t) {
        let j = choose|j: int| 0 <= j < parent.len() && (#[trigger] parent[j]).trigger@ == t;
        assert(parent.contains(parent[j]));
        lemma_parent_match_inherited(child, parent, parent[j]);
        let k = choose|k: int| 0 <= k < merged.len() && merged[k] == parent[j];
        assert(merged[k].trigger@ == t);
    }
}

/// Inheriting the matches of the default configuration a second time changes
/// nothing.
pub proof fn lemma_merge_idempotent(child: Seq<Match>, parent: Seq<Match>)
    ensures
        merged_matches(merged_matches(child, parent), parent) == merged_matches(child, parent),
{
    let merged = merged_matches(child, parent);
    let keep = |x: Match| !has_trigger(merged, x.trigger@);
    assert forall|i: int| 0 <= i < parent.len() implies !keep(parent[i]) by {
        lemma_merged_triggers(child, parent, parent[i].trigger@);
        assert(has_trigger(parent, parent[i].trigger@));
    }
    parent.lemma_all_neg_filter_empty(keep);
    assert(merged_matches(merged, parent) =~= merged);
}

/// When some file raises an error, one of them is the first to raise one.
pub proof fn lemma_first_error_exists(files: Seq<UserConfigFile>, i: int)
    requires
        0 <= i < files.len(),
        file_error(files, i) is Some,
    ensures
        exists|k: int| #[trigger] is_first_error(files, k),
    decreases i,
{
    if forall|j: int| 0 <= j < i ==> (#[trigger] file_error(files, j)) is None {
        assert(is_first_error(files, i));
    } else {
        let j = choose|j: int| 0 <= j < i && (#[trigger] file_error(files, j)) is Some;
        lemma_first_error_exists(files, j);
    }
}

impl ConfigSet {
    /// No user-defined configuration sets a parameter reserved to the default
    /// configuration, none is left unnamed, and no two share a name.
    pub open spec fn user_configs_well_formed(self) -> bool {
        &&& forall|i: int|
            0 <= i < self.specific@.len() ==> (#[trigger] self.specific@[i]).keeps_reserved_defaults()
        &&& forall|i: int| 0 <= i < self.specific@.len() ==> (#[trigger] self.specific@[i]).name@ != unnamed()
        &&& forall|i: int, j: int|
            0 <= i < j < self.specific@.len() ==> (#[trigger] self.specific@[i]).name@
                != (#[trigger] self.specific@[j]).name@
    }
}

/// A configuration set that loading produces is well formed.
pub proof fn lemma_loaded_set_well_formed(scan: ConfigDirScan, r: Result<ConfigSet, ConfigLoadError>)
    requires
        load_outcome(scan, r),
        r is Ok,
    ensures
        r->Ok_0.user_configs_well_formed(),
{
    let set = r->Ok_0;
    match scan {
        ConfigDirScan::NotADirectory => {},
        ConfigDirScan::Directory { default, user } => match default {
            Err(_) => {},
            Ok(d) => match user {
                UserConfigDir::Absent => {},
                UserConfigDir::Unreadable => {},
                UserConfigDir::Files(files) => {
                    let fs = files@;
                    if !all_accepted(fs) {
                        let i = choose|i: int| 0 <= i < fs.len() && (#[trigger] file_error(fs, i)) is Some;
                        lemma_first_error_exists(fs, i);
                        let k = choose|k: int| #[trigger] is_first_error(fs, k);
                        assert(r is Err);
                    }
                    assert forall|i: int| 0 <= i < set.specific@.len() implies {
                        &&& (#[trigger] set.specific@[i]).keeps_reserved_defaults()
                        &&& set.specific@[i].name@ != unnamed()
                    } by {
                        assert(file_error(fs, i) is None);
                        assert(inherits(set.specific@[i], fs[i].config->Ok_0, d.matches@));
                    }
                    assert forall|i: int, j: int| 0 <= i < j < set.specific@.len() implies
                        (#[trigger] set.specific@[i]).name@ != (#[trigger] set.specific@[j]).name@ by {
                        assert(file_error(fs, i) is None);
                        assert(file_error(fs, j) is None);
                        assert(inherits(set.specific@[i], fs[i].config->Ok_0, d.matches@));
                        assert(inherits(set.specific@[j], fs[j].config->Ok_0, d.matches@));
                        assert(!name_taken(fs, j, fs[j].config->Ok_0.name@));
                    }
                },
            },
        },
    }
}

/// Validation looks at the seven reserved parameters, each against its
/// default value, and at nothing else: a configuration is accepted exactly
/// when its caching interval is 800, its log level 0, its toggle key ALT, its
/// toggle interval 230, its backspace limit 3, its port 34982 and it uses the
/// system agent; the reserved parameters it is refused for are listed exactly
/// when it is refused.
pub proof fn lemma_validation_reads_reserved_parameters(c: Configs)
    ensures
        c.keeps_reserved_defaults() == (c.config_caching_interval == 800 && c.log_level == 0
            && c.toggle_key == KeyModifier::ALT && c.toggle_interval == 230 && c.backspace_limit
            == 3 && c.ipc_server_port == 34982 && c.use_system_agent),
        c.reserved_fields_set().len() == 0 <==> c.keeps_reserved_defaults(),
{
}

/// A user-defined configuration is refused for exactly the reserved parameters
/// it sets to another value than their default, each named once, in the order
/// caching interval, log level, toggle key, toggle interval, backspace limit,
/// port, system agent.
pub proof fn lemma_refusal_names(c: Configs)
    ensures
        c.reserved_fields_set() =~= (if c.config_caching_interval != 800 {
            seq!["config_caching_interval"@]
        } else {
            seq![]
        }) + (if c.log_level != 0 {
            seq!["log_level"@]
        } else {
            seq![]
        }) + (if c.toggle_key != KeyModifier::ALT {
            seq!["toggle_key"@]
        } else {
            seq![]
        }) + (if c.toggle_interval != 230 {
            seq!["toggle_interval"@]
        } else {
            seq![]
        }) + (if c.backspace_limit != 3 {
            seq!["backspace_limit"@]
        } else {
            seq![]
        }) + (if c.ipc_server_port != 34982 {
            seq!["ipc_server_port"@]
        } else {
            seq![]
        }) + (if !c.use_system_agent {
            seq!["use_system_agent"@]
        } else {
            seq![]
        }),
{
}

/// Two configurations that agree on the seven reserved parameters are
/// accepted or refused alike, and refused for the same parameters, whatever
/// their other settings (name, filters, backend, matches, ...).
pub proof fn lemma_validation_ignores_other_settings(c1: Configs, c2: Configs)
    requires
        c1.config_caching_interval == c2.config_caching_interval,
        c1.log_level == c2.log_level,
        c1.toggle_key == c2.toggle_key,
        c1.toggle_interval == c2.toggle_interval,
        c1.backspace_limit == c2.backspace_limit,
        c1.ipc_server_port == c2.ipc_server_port,
        c1.use_system_agent == c2.use_system_agent,
    ensures
        c1.keeps_reserved_defaults() == c2.keeps_reserved_defaults(),
        c1.reserved_fields_set() == c2.reserved_fields_set(),
{
}

/// Any toggle key other than the default one, ALT, gets a user-defined
/// configuration refused, and the toggle key is named among the reasons.
pub proof fn lemma_other_toggle_key_refused(c: Configs)
    requires
        c.toggle_key != KeyModifier::ALT,
    ensures
        !c.keeps_reserved_defaults(),
        c.reserved_fields_set().contains(seq!['t', 'o', 'g', 'g', 'l', 'e', '_', 'k', 'e', 'y']),
{
    reveal_strlit("toggle_key");
    let names = c.reserved_fields_set();
    let k = if c.config_caching_interval != 800 { 1int } else { 0int } + if c.log_level != 0 { 1int } else { 0int };
    assert(names[k] == "toggle_key"@);
    assert("toggle_key"@ =~= seq!['t', 'o', 'g', 'g', 'l', 'e', '_', 'k', 'e', 'y']);
}

/// A parent match is inherited exactly when it is also one of the child's
/// matches or no child match has the very same trigger: a child trigger that is
/// only a prefix, or an extension, of the parent's hides nothing.
pub proof fn lemma_parent_match_inherited_iff(child: Seq<Match>, parent: Seq<Match>, m: Match)
    requires
        parent.contains(m),
    ensures
        merged_matches(child, parent).contains(m) <==> (child.contains(m) || forall|k: int|
            0 <= k < child.len() ==> child[k].trigger@ != m.trigger@),
{
    if forall|k: int| 0 <= k < child.len() ==> child[k].trigger@ != m.trigger@ {
        lemma_parent_match_inherited(child, parent, m);
    }
    if merged_matches(child, parent).contains(m) && !child.contains(m) {
        let keep = |x: Match| !has_trigger(child, x.trigger@);
        let merged = merged_matches(child, parent);
        let j = choose|j: int| 0 <= j < merged.len() && merged[j] == m;
        if j < child.len() {
            assert(child[j] == m);
        } else {
            let f = parent.filter(keep);
            assert(f[j - child.len()] == m);
            assert(keep(f[j - child.len()]));
        }
    }
    if child.contains(m) {
        let j = choose|j: int| 0 <= j < child.len() && child[j] == m;
        assert(merged_matches(child, parent)[j] == m);
    }
}

/// The matches of a configuration that inherits from a parent are its own,
/// in order, followed by those of the parent, in order, whose trigger is equal
/// to none of its own.
pub proof fn lemma_merged_matches_shape(child: Seq<Match>, parent: Seq<Match>)
    ensures
        merged_matches(child, parent) == child + parent.filter(
            |m: Match| forall|k: int| 0 <= k < child.len() ==> child[k].trigger@ != m.trigger@,
        ),
{
    let a = |m: Match| !has_trigger(child, m.trigger@);
    let b = |m: Match| forall|k: int| 0 <= k < child.len() ==> child[k].trigger@ != m.trigger@;
    assert(a =~= b);
}

/// A loaded user-defined configuration keeps every setting of its file but its
/// matches, which are its own followed, unless it excludes them, by those of
/// the default configuration whose trigger it does not define; the default
/// configuration is kept as it is.
pub proof fn lemma_loaded_config_keeps_file_settings(
    d: Configs,
    files: Vec<UserConfigFile>,
    r: Result<ConfigSet, ConfigLoadError>,
)
    requires
        load_outcome(
            ConfigDirScan::Directory { default: Ok(d), user: UserConfigDir::Files(files) },
            r,
        ),
        r is Ok,
    ensures
        r->Ok_0.default == d,
        r->Ok_0.specific@.len() == files@.len(),
        forall|i: int|
            0 <= i < files@.len() ==> {
                let c = files@[i].config->Ok_0;
                let s = #[trigger] r->Ok_0.specific@[i];
                &&& files@[i].config is Ok
                &&& s.name == c.name
                &&& s.filter_title == c.filter_title
                &&& s.filter_class == c.filter_class
                &&& s.filter_exec == c.filter_exec
                &&& s.disabled == c.disabled
                &&& s.log_level == c.log_level
                &&& s.ipc_server_port == c.ipc_server_port
                &&& s.use_system_agent == c.use_system_agent
                &&& s.config_caching_interval == c.config_caching_interval
                &&& s.toggle_key == c.toggle_key
                &&& s.toggle_interval == c.toggle_interval
                &&& s.backspace_limit == c.backspace_limit
                &&& s.backend == c.backend
                &&& s.exclude_parent_matches == c.exclude_parent_matches
                &&& s.matches@ == if c.exclude_parent_matches {
                    c.matches@
                } else {
                    c.matches@ + d.matches@.filter(
                        |m: Match|
                            forall|k: int|
                                0 <= k < c.matches@.len() ==> c.matches@[k].trigger@ != m.trigger@,
                    )
                }
            },
{
    let fs = files@;
    let set = r->Ok_0;
    if !all_accepted(fs) {
        let i = choose|i: int| 0 <= i < fs.len() && (#[trigger] file_error(fs, i)) is Some;
        lemma_first_error_exists(fs, i);
        let k = choose|k: int| #[trigger] is_first_error(fs, k);
        assert(r is Err);
    }
    assert forall|i: int| 0 <= i < fs.len() implies {
        let c = fs[i].config->Ok_0;
        let s = #[trigger] set.specific@[i];
        &&& fs[i].config is Ok
        &&& s.name == c.name
        &&& s.filter_title == c.filter_title
        &&& s.filter_class == c.filter_class
        &&& s.filter_exec == c.filter_exec
        &&& s.disabled == c.disabled
        &&& s.log_level == c.log_level
        &&& s.ipc_server_port == c.ipc_server_port
        &&& s.use_system_agent == c.use_system_agent
        &&& s.config_caching_interval == c.config_caching_interval
        &&& s.toggle_key == c.toggle_key
        &&& s.toggle_interval == c.toggle_interval
        &&& s.backspace_limit == c.backspace_limit
        &&& s.backend == c.backend
        &&& s.exclude_parent_matches == c.exclude_parent_matches
        &&& s.matches@ == if c.exclude_parent_matches {
            c.matches@
        } else {
            c.matches@ + d.matches@.filter(
                |m: Match|
                    forall|k: int|
                        0 <= k < c.matches@.len() ==> c.matches@[k].trigger@ != m.trigger@,
            )
        }
    } by {
        assert(file_error(fs, i) is None);
        let c = fs[i].config->Ok_0;
        assert(inherits(set.specific@[i], c, d.matches@));
        lemma_merged_matches_shape(c.matches@, d.matches@);
    }
}

/// A name made of a non-empty stem, a '.' and an extension free of '.' has
/// that extension, whatever the length of the stem (".." alone has none).
pub proof fn lemma_extension_follows_last_dot(stem: Seq<char>, ext: Seq<char>)
    requires
        stem.len() > 0,
        forall|i: int| 0 <= i < ext.len() ==> ext[i] != '.',
        !(stem == seq!['.'] && ext.len() == 0),
    ensures
        file_extension(stem + seq!['.'] + ext) == Some(ext),
{
    let name = stem + seq!['.'] + ext;
    lemma_last_dot_is_dot(name);
    let k = stem.len() as int;
    assert(name[k] == '.');
    let d = last_dot(name);
    if d > k {
        assert(name[d] == ext[d - k - 1]);
    }
    assert(d == k);
    assert(name.skip(k + 1) =~= ext);
    if name == seq!['.', '.'] {
        assert(stem.len() == 1 && ext.len() == 0);
        assert(stem =~= seq!['.']);
    }
}

/// Every file whose name is a non-empty stem followed by ".yml" has the
/// extension "yml", so it is a configuration file, however long its name.
pub proof fn lemma_yml_file_is_config_file(stem: Seq<char>)
    requires
        stem.len() > 0,
    ensures
        file_extension(stem + seq!['.', 'y', 'm', 'l']) == Some(seq!['y', 'm', 'l']),
{
    lemma_extension_follows_last_dot(stem, seq!['y', 'm', 'l']);
    assert(stem + seq!['.'] + seq!['y', 'm', 'l'] =~= stem + seq!['.', 'y', 'm', 'l']);
}

/// A file whose name holds no '.' has no extension.
pub proof fn lemma_no_dot_no_extension(name: Seq<char>)
    requires
        forall|i: int| 0 <= i < name.len() ==> name[i] != '.',
    ensures
        file_extension(name) is None,
{
    lemma_last_dot_is_dot(name);
}

} // verus!
