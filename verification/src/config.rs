//! The configuration service: the registry root and the post-install hook
//! table, as loaded once per process from the well-known file in the
//! working directory.
//!
//! The caller reads and parses the file itself (a missing or malformed
//! file yields nothing) and hands the result in as plain values.

use vstd::prelude::*;

verus! {

/// One post-install hook entry: the script type it belongs to, the
/// package it applies to, and the command line to run.
pub struct ScriptEntry {
    pub script_type: String,
    pub package_name: String,
    pub command: String,
}

impl Clone for ScriptEntry {
    fn clone(&self) -> (r: Self)
        ensures
            r == *self,
    {
        ScriptEntry {
            script_type: self.script_type.clone(),
            package_name: self.package_name.clone(),
            command: self.command.clone(),
        }
    }
}

/// The loaded configuration: the optional registry root under the
/// `registry` key, and the hook entries under `scripts`.
pub struct Config {
    pub registry: Option<String>,
    pub scripts: Vec<ScriptEntry>,
}

/// Holds when `e` is the hook entry for `script_type` and `package_name`.
pub open spec fn entry_matches(e: ScriptEntry, script_type: Seq<char>, package_name: Seq<char>) -> bool {
    e.script_type@ == script_type && e.package_name@ == package_name
}

/// The first hook entry for `st` and `pn`, when one is configured.
pub open spec fn first_hook(entries: Seq<ScriptEntry>, st: Seq<char>, pn: Seq<char>) -> Option<
    ScriptEntry,
>
    decreases entries.len(),
{
    if entries.len() == 0 {
        None
    } else if entry_matches(entries[0], st, pn) {
        Some(entries[0])
    } else {
        first_hook(entries.drop_first(), st, pn)
    }
}

/// When nothing matches, no hook is found.
pub proof fn lemma_first_hook_none(entries: Seq<ScriptEntry>, st: Seq<char>, pn: Seq<char>)
    requires
        forall|j: int| 0 <= j < entries.len() ==> !entry_matches(#[trigger] entries[j], st, pn),
    ensures
        first_hook(entries, st, pn) is None,
    decreases entries.len(),
{
    if entries.len() > 0 {
        lemma_first_hook_none(entries.drop_first(), st, pn);
    }
}

/// When position `i` holds the first match, it is the hook found.
pub proof fn lemma_first_hook_at(entries: Seq<ScriptEntry>, st: Seq<char>, pn: Seq<char>, i: int)
    requires
        0 <= i < entries.len(),
        entry_matches(entries[i], st, pn),
        forall|j: int| 0 <= j < i ==> !entry_matches(#[trigger] entries[j], st, pn),
    ensures
        first_hook(entries, st, pn) == Some(entries[i]),
    decreases i,
{
    if i > 0 {
        lemma_first_hook_at(entries.drop_first(), st, pn, i - 1);
    }
}

/// Normalizes what loading the configuration file yielded: a missing or
/// malformed file holds an empty configuration, not an error.
pub fn config(loaded: Option<Config>) -> (r: Config)
    ensures
        match loaded {
            Some(c) => r == c,
            None => r.registry is None && r.scripts@.len() == 0,
        },
{
    match loaded {
        Some(c) => c,
        None => Config { registry: None, scripts: Vec::new() },
    }
}

/// The configured registry root, when the `registry` key is present.
pub fn get_registry_path(config: &Config) -> (r: &Option<String>)
    ensures
        r == &config.registry,
{
    &config.registry
}

/// Every hook entry configured for one script type, in configuration order.
pub fn get_post_install(config: &Config, script_type: &str) -> (r: Vec<ScriptEntry>)
    ensures
        r@ == config.scripts@.filter(
            |e: ScriptEntry| e.script_type@ == script_type@,
        ),
{
    let st = script_type.to_owned();
    let n = config.scripts.len();
    let mut acc: Vec<ScriptEntry> = Vec::new();
    let mut i: usize = 0;
    proof {
        reveal(Seq::filter);
        assert(config.scripts@.take(0) =~= Seq::<ScriptEntry>::empty());
        assert(acc@ =~= config.scripts@.take(0).filter(
            |e: ScriptEntry| e.script_type@ == script_type@,
        ));
    }
    while i < n
        invariant
            i <= n,
            n == config.scripts@.len(),
            st@ == script_type@,
            acc@ == config.scripts@.take(i as int).filter(
                |e: ScriptEntry| e.script_type@ == script_type@,
            ),
        decreases n - i,
    {
        let ghost prev = acc@;
        if config.scripts[i].script_type.eq(&st) {
            acc.push(config.scripts[i].clone());
        }
        proof {
            reveal(Seq::filter);
            assert(config.scripts@.take(i + 1 as int).drop_last() =~= config.scripts@.take(
                i as int,
            ));
            assert(config.scripts@.take(i + 1 as int).last() == config.scripts@[i as int]);
            if config.scripts@[i as int].script_type@ == script_type@ {
                assert(acc@ =~= prev.push(config.scripts@[i as int]));
            }
            assert(acc@ =~= config.scripts@.take(i + 1 as int).filter(
                |e: ScriptEntry| e.script_type@ == script_type@,
            ));
        }
        i += 1;
    }
    proof {
        assert(config.scripts@.take(n as int) =~= config.scripts@);
    }
    acc
}

/// The command line of the first hook configured for this script type and
/// package, when one is.
pub fn get_post_install_script(config: &Config, script_type: &str, package_name: &String) -> (r:
    Option<String>)
    ensures
        match first_hook(config.scripts@, script_type@, package_name@) {
            Some(e) => r == Some::<String>(e.command),
            None => r is None,
        },
{
    let st = script_type.to_owned();
    let n = config.scripts.len();
    let mut i: usize = 0;
    while i < n
        invariant
            i <= n,
            n == config.scripts@.len(),
            st@ == script_type@,
            forall|j: int|
                0 <= j < i ==> !entry_matches(
                    #[trigger] config.scripts@[j],
                    script_type@,
                    package_name@,
                ),
        decreases n - i,
    {
        let e = &config.scripts[i];
        if e.script_type.eq(&st) && e.package_name.eq(package_name) {
            proof {
                lemma_first_hook_at(config.scripts@, script_type@, package_name@, i as int);
            }
            return Some(e.command.clone());
        }
        i += 1;
    }
    proof {
        lemma_first_hook_none(config.scripts@, script_type@, package_name@);
    }
    None
}

} // verus!
