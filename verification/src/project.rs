//! What the command line reads of a Scarb project: the `cfg` set, the
//! edition, the configuration of the crates to compile, and which compilation
//! units and diagnostics to take.
use vstd::prelude::*;

use cairo_lang_filesystem::cfg::{Cfg, CfgSet};
use cairo_lang_utils::ordered_hash_map::OrderedHashMap;

use crate::plugin::{kind_of_message, CairoLintKind};
use crate::text::str_eq;

verus! {

/// The target names of Cairo.
pub const LIB: &'static str = "lib";

pub const TEST: &'static str = "test";

pub const STARKNET_CONTRACT: &'static str = "starknet-contract";

pub const TARGETS: [&'static str; 3] = [LIB, TEST, STARKNET_CONTRACT];

/// The compiler's set of `cfg` options, `cairo_lang_filesystem::cfg::CfgSet`;
/// the proofs see it only through `cfg_set_contents`.
#[verifier::external_type_specification]
#[verifier::external_body]
pub struct ExCfgSet(CfgSet);

/// The `cfg` options that a `CfgSet` holds, each a key and an optional value.
pub uninterp spec fn cfg_set_contents(s: CfgSet) -> Set<(Seq<char>, Option<Seq<char>>)>;

/// `CfgSet::new`: an empty set.
#[verifier::external_body]
fn cfg_set_new() -> (r: CfgSet)
    ensures
        cfg_set_contents(r) == Set::<(Seq<char>, Option<Seq<char>>)>::empty(),
{
    CfgSet::new()
}

/// `CfgSet::insert`: adds the option with this key and value to the set.
#[verifier::external_body]
fn cfg_set_insert(set: &mut CfgSet, key: &str, value: Option<&str>)
    ensures
        cfg_set_contents(*final(set)) == cfg_set_contents(*old(set)).insert(
            (
                key@,
                match value {
                    Some(v) => Some(v@),
                    None => None,
                },
            ),
        ),
{
    set.insert(Cfg { key: key.into(), value: value.map(|v| v.into()) });
}

/// `cairo_lang_utils::ordered_hash_map::OrderedHashMap`, a hash map that keeps
/// its keys in the order they were first inserted.
#[verifier::external_type_specification]
#[verifier::external_body]
#[verifier::reject_recursive_types(Key)]
#[verifier::reject_recursive_types(Value)]
#[verifier::reject_recursive_types(BH)]
pub struct ExOrderedHashMap<Key, Value, BH>(OrderedHashMap<Key, Value, BH>);

/// The entries of a map of crate settings, in the map's order, each key as
/// its characters.
pub uninterp spec fn settings_entries(m: OrderedHashMap<String, CrateSettings>) -> Seq<
    (Seq<char>, CrateSettings),
>;

/// The position of the entry with this key, where there is one.
pub open spec fn key_position(es: Seq<(Seq<char>, CrateSettings)>, key: Seq<char>) -> Option<int> {
    if exists|i: int| 0 <= i < es.len() && (#[trigger] es[i]).0 == key {
        Some(choose|i: int| 0 <= i < es.len() && (#[trigger] es[i]).0 == key)
    } else {
        None
    }
}

/// `OrderedHashMap::default`: a map with no entries.
#[verifier::external_body]
fn settings_map_new() -> (m: OrderedHashMap<String, CrateSettings>)
    ensures
        settings_entries(m) == Seq::<(Seq<char>, CrateSettings)>::empty(),
{
    OrderedHashMap::default()
}

/// `OrderedHashMap::insert`: where an entry with an equal key is there, its
/// value is replaced and it keeps its place; else the pair is added last.
#[verifier::external_body]
fn settings_map_insert(m: &mut OrderedHashMap<String, CrateSettings>, key: String, value: CrateSettings)
    ensures
        settings_entries(*final(m)) == match key_position(settings_entries(*old(m)), key@) {
            Some(i) => settings_entries(*old(m)).update(i, (key@, value)),
            None => settings_entries(*old(m)).push((key@, value)),
        },
{
    m.insert(key, value);
}

/// A `cfg` option of Scarb's metadata: a key with a value, or a name.
#[derive(Debug)]
pub enum ScarbCfg {
    KV(String, String),
    Name(String),
}

/// The option as a key and an optional value.
pub open spec fn cfg_pair(c: ScarbCfg) -> (Seq<char>, Option<Seq<char>>) {
    match c {
        ScarbCfg::KV(k, v) => (k@, Some(v@)),
        ScarbCfg::Name(n) => (n@, None),
    }
}

/// The options of a list, as a set.
pub open spec fn cfg_pairs(cfgs: Seq<ScarbCfg>) -> Set<(Seq<char>, Option<Seq<char>>)>
    decreases cfgs.len(),
{
    if cfgs.len() == 0 {
        Set::empty()
    } else {
        cfg_pairs(cfgs.drop_last()).insert(cfg_pair(cfgs.last()))
    }
}

/// Converts Scarb's `cfg` options to the compiler's `CfgSet`.
pub fn to_cairo_cfg(cfgs: &Vec<ScarbCfg>) -> (r: CfgSet)
    ensures
        cfg_set_contents(r) == cfg_pairs(cfgs@),
{
    let mut cfg_set = cfg_set_new();
    let mut i: usize = 0;
    while i < cfgs.len()
        invariant
            i <= cfgs@.len(),
            cfg_set_contents(cfg_set) == cfg_pairs(cfgs@.take(i as int)),
        decreases cfgs@.len() - i,
    {
        match &cfgs[i] {
            ScarbCfg::KV(key, value) => cfg_set_insert(&mut cfg_set, key.as_str(), Some(value.as_str())),
            ScarbCfg::Name(name) => cfg_set_insert(&mut cfg_set, name.as_str(), None),
        }
        assert(cfgs@.take(i + 1).drop_last() =~= cfgs@.take(i as int));
        i = i + 1;
    }
    assert(cfgs@.take(cfgs@.len() as int) =~= cfgs@);
    cfg_set
}

/// A Cairo edition.
#[derive(Clone, Copy, Debug, PartialEq, Eq, Structural)]
pub enum Edition {
    V2023_01,
    V2023_10,
    V2023_11,
    V2024_07,
}

/// An edition name that is not known.
#[derive(Debug)]
pub struct UnknownEdition {
    pub edition: String,
}

impl UnknownEdition {
    /// The error message.
    pub fn message(&self) -> (r: String)
        ensures
            r@ == "Unknown edition "@ + self.edition@,
    {
        let mut m = String::from_str("Unknown edition ");
        m.append(self.edition.as_str());
        m
    }
}

/// The edition with this name.
pub open spec fn edition_of(name: Seq<char>) -> Option<Edition> {
    if name == "2023_01"@ {
        Some(Edition::V2023_01)
    } else if name == "2023_10"@ {
        Some(Edition::V2023_10)
    } else if name == "2023_11"@ {
        Some(Edition::V2023_11)
    } else if name == "2024_07"@ {
        Some(Edition::V2024_07)
    } else {
        None
    }
}

/// The compiler edition with this name, or an error for an unknown name.
pub fn to_cairo_edition(edition: &str) -> (r: Result<Edition, UnknownEdition>)
    ensures
        match r {
            Ok(e) => edition_of(edition@) == Some(e),
            Err(err) => edition_of(edition@) is None && err.edition@ == edition@,
        },
{
    if str_eq(edition, "2023_01") {
        Ok(Edition::V2023_01)
    } else if str_eq(edition, "2023_10") {
        Ok(Edition::V2023_10)
    } else if str_eq(edition, "2023_11") {
        Ok(Edition::V2023_11)
    } else if str_eq(edition, "2024_07") {
        Ok(Edition::V2024_07)
    } else {
        Err(UnknownEdition { edition: String::from_str(edition) })
    }
}

/// A component of a compilation unit: its crate name, the id of its package,
/// the directory of its sources and its `cfg` options.
#[derive(Debug)]
pub struct ComponentMetadata {
    pub name: String,
    pub package: String,
    pub source_root: String,
    pub cfg: Option<Vec<ScarbCfg>>,
}

/// A compilation unit: the package and target it compiles, and its components.
#[derive(Debug)]
pub struct CompilationUnitMetadata {
    pub package: String,
    pub target: TargetMetadata,
    pub cfg: Vec<ScarbCfg>,
    pub components: Vec<ComponentMetadata>,
}

/// A target of a package: its kind, name, main source file and parameters (as
/// JSON text).
#[derive(Debug)]
pub struct TargetMetadata {
    pub kind: String,
    pub name: String,
    pub source_path: String,
    pub params: String,
}

/// A package: its id, name, version, edition, the names of its dependencies
/// and its targets.
#[derive(Debug)]
pub struct PackageMetadata {
    pub id: String,
    pub name: String,
    pub version: String,
    pub edition: Option<String>,
    pub dependencies: Vec<String>,
    pub targets: Vec<TargetMetadata>,
}

/// The settings of a crate: edition, `cfg` set, dependencies (name and
/// version, each name once), experimental features and version.
pub struct CrateSettings {
    pub edition: Edition,
    pub cfg_set: Option<CfgSet>,
    pub dependencies: Vec<(String, Option<String>)>,
    pub negative_impls: bool,
    pub coupons: bool,
    pub version: Option<String>,
}

/// The configuration of a project: its base path, the corelib's path, the root
/// directory of each crate and the settings of each crate, by crate name.
pub struct ProjectConfig {
    pub base_path: String,
    pub corelib: String,
    pub crate_roots: Vec<(String, String)>,
    pub crates_config: OrderedHashMap<String, CrateSettings>,
}

/// The index of the first package with this id.
pub open spec fn first_package_with_id(packages: Seq<PackageMetadata>, id: Seq<char>) -> Option<int>
    decreases packages.len(),
{
    if packages.len() == 0 {
        None
    } else if packages[0].id@ == id {
        Some(0)
    } else {
        match first_package_with_id(packages.drop_first(), id) {
            Some(i) => Some(i + 1),
            None => None,
        }
    }
}

/// The version of the first package with this name.
pub open spec fn version_of_package_named(packages: Seq<PackageMetadata>, name: Seq<char>) -> Option<
    Seq<char>,
>
    decreases packages.len(),
{
    if packages.len() == 0 {
        None
    } else if packages[0].name@ == name {
        Some(packages[0].version@)
    } else {
        version_of_package_named(packages.drop_first(), name)
    }
}

/// Some component of the unit has this crate name.
pub open spec fn has_component_named(unit: CompilationUnitMetadata, name: Seq<char>) -> bool {
    exists|k: int| 0 <= k < unit.components@.len() && #[trigger] unit.components@[k].name@ == name
}

/// The dependencies of a package's crate: each dependency that a component of
/// the unit provides, with the version of the first package of its name, and the
/// package itself with its version.
pub open spec fn dependency_in(
    unit: CompilationUnitMetadata,
    pack: PackageMetadata,
    name: Seq<char>,
) -> bool {
    name == pack.name@ || ((exists|k: int|
        0 <= k < pack.dependencies@.len() && #[trigger] pack.dependencies@[k]@ == name)
        && has_component_named(unit, name))
}

/// The version that a dependency of a package's crate is given.
pub open spec fn dependency_version(
    packages: Seq<PackageMetadata>,
    pack: PackageMetadata,
    name: Seq<char>,
) -> Option<Seq<char>> {
    if name == pack.name@ {
        Some(pack.version@)
    } else {
        version_of_package_named(packages, name)
    }
}

/// The value of an optional string.
pub open spec fn opt_view(v: Option<String>) -> Option<Seq<char>> {
    match v {
        Some(s) => Some(s@),
        None => None,
    }
}

/// The dependency list holds each dependency of the package's crate once, with
/// its version, and nothing else.
pub open spec fn dependencies_of(
    deps: Seq<(String, Option<String>)>,
    unit: CompilationUnitMetadata,
    packages: Seq<PackageMetadata>,
    pack: PackageMetadata,
) -> bool {
    &&& forall|i: int, j: int| 0 <= i < j < deps.len() ==> deps[i].0@ != deps[j].0@
    &&& forall|i: int|
        0 <= i < deps.len() ==> dependency_in(unit, pack, #[trigger] deps[i].0@) && opt_view(
            deps[i].1,
        ) == dependency_version(packages, pack, deps[i].0@)
    &&& forall|name: Seq<char>|
        dependency_in(unit, pack, name) ==> exists|i: int|
            0 <= i < deps.len() && #[trigger] deps[i].0@ == name
}

/// The settings of the crate of a component.
pub open spec fn crate_settings_of(
    s: CrateSettings,
    c: ComponentMetadata,
    unit: CompilationUnitMetadata,
    packages: Seq<PackageMetadata>,
    edition: Edition,
    version: Seq<char>,
) -> bool {
    &&& match (c.cfg, s.cfg_set) {
        (Some(cfgs), Some(set)) => cfg_set_contents(set) == cfg_pairs(cfgs@),
        (None, None) => true,
        _ => false,
    }
    &&& match first_package_with_id(packages, c.package@) {
        Some(j) => {
            &&& s.edition == match packages[j].edition {
                Some(e) => edition_of(e@)->0,
                None => edition,
            }
            &&& dependencies_of(s.dependencies@, unit, packages, packages[j])
        },
        None => s.edition == edition && s.dependencies@.len() == 0,
    }
    &&& !s.negative_impls
    &&& !s.coupons
    &&& opt_view(s.version) == Some(version)
}

/// The names of the components, in order.
pub open spec fn component_names(cs: Seq<ComponentMetadata>) -> Seq<Seq<char>> {
    cs.map_values(|c: ComponentMetadata| c.name@)
}

/// The names, each once, in the order in which they first appear.
pub open spec fn first_seen(names: Seq<Seq<char>>) -> Seq<Seq<char>>
    decreases names.len(),
{
    if names.len() == 0 {
        Seq::empty()
    } else {
        let prev = first_seen(names.drop_last());
        if prev.contains(names.last()) {
            prev
        } else {
            prev.push(names.last())
        }
    }
}

/// The index of the last component with this name, or -1.
pub open spec fn last_named(cs: Seq<ComponentMetadata>, name: Seq<char>) -> int
    decreases cs.len(),
{
    if cs.len() == 0 {
        -1
    } else if cs.last().name@ == name {
        cs.len() - 1
    } else {
        last_named(cs.drop_last(), name)
    }
}

/// The crate settings of the components: each name once, in the order in
/// which the names first appear, with the settings of the last component of
/// that name.
pub open spec fn settings_of_components(
    es: Seq<(Seq<char>, CrateSettings)>,
    cs: Seq<ComponentMetadata>,
    unit: CompilationUnitMetadata,
    packages: Seq<PackageMetadata>,
    edition: Edition,
    version: Seq<char>,
) -> bool {
    &&& es.len() == first_seen(component_names(cs)).len()
    &&& forall|i: int|
        0 <= i < es.len() ==> {
            &&& (#[trigger] es[i]).0 == first_seen(component_names(cs))[i]
            &&& 0 <= last_named(cs, es[i].0) < cs.len()
            &&& crate_settings_of(
                es[i].1,
                cs[last_named(cs, es[i].0)],
                unit,
                packages,
                edition,
                version,
            )
        }
}

proof fn lemma_first_seen_distinct(names: Seq<Seq<char>>)
    ensures
        forall|i: int, j: int|
            0 <= i < j < first_seen(names).len() ==> first_seen(names)[i] != first_seen(names)[j],
    decreases names.len(),
{
    if names.len() > 0 {
        lemma_first_seen_distinct(names.drop_last());
        let prev = first_seen(names.drop_last());
        if !prev.contains(names.last()) {
            let fs = first_seen(names);
            assert forall|i: int, j: int| 0 <= i < j < fs.len() implies fs[i] != fs[j] by {
                if j == prev.len() {
                    assert(fs[i] == prev[i]);
                    assert(fs[j] == names.last());
                }
            }
        }
    }
}

proof fn lemma_settings_step(
    es0: Seq<(Seq<char>, CrateSettings)>,
    es1: Seq<(Seq<char>, CrateSettings)>,
    cs: Seq<ComponentMetadata>,
    k: int,
    v: CrateSettings,
    unit: CompilationUnitMetadata,
    packages: Seq<PackageMetadata>,
    edition: Edition,
    version: Seq<char>,
)
    requires
        0 <= k < cs.len(),
        settings_of_components(es0, cs.take(k), unit, packages, edition, version),
        crate_settings_of(v, cs[k], unit, packages, edition, version),
        es1 == match key_position(es0, cs[k].name@) {
            Some(i) => es0.update(i, (cs[k].name@, v)),
            None => es0.push((cs[k].name@, v)),
        },
    ensures
        settings_of_components(es1, cs.take(k + 1), unit, packages, edition, version),
{
    let c0 = cs.take(k);
    let c1 = cs.take(k + 1);
    let n = cs[k].name@;
    assert(c1.drop_last() =~= c0);
    assert(c1.last() == cs[k]);
    let names0 = component_names(c0);
    let names1 = component_names(c1);
    assert(names1.drop_last() =~= names0);
    assert(names1.last() == n);
    let fs0 = first_seen(names0);
    let fs1 = first_seen(names1);
    lemma_first_seen_distinct(names0);
    assert forall|m: Seq<char>| m != n implies last_named(c1, m) == last_named(c0, m) by {}
    assert(last_named(c1, n) == k);
    assert forall|j: int| 0 <= j < k implies c1[j] == #[trigger] c0[j] by {}
    if fs0.contains(n) {
        let i0 = choose|i: int| 0 <= i < fs0.len() && fs0[i] == n;
        assert(es0[i0].0 == n);
        assert(exists|i: int| 0 <= i < es0.len() && (#[trigger] es0[i]).0 == n);
        let ci = choose|i: int| 0 <= i < es0.len() && (#[trigger] es0[i]).0 == n;
        assert(key_position(es0, n) == Some(ci));
        assert(fs0[ci] == n);
        assert(ci == i0);
        assert(fs1 == fs0);
        assert forall|j: int| 0 <= j < es1.len() implies {
            &&& (#[trigger] es1[j]).0 == fs1[j]
            &&& 0 <= last_named(c1, es1[j].0) < c1.len()
            &&& crate_settings_of(es1[j].1, c1[last_named(c1, es1[j].0)], unit, packages, edition, version)
        } by {
            if j != ci {
                assert(es1[j] == es0[j]);
                assert(es0[j].0 == fs0[j]);
                assert(fs0[j] != n);
                let idx = last_named(c0, es0[j].0);
                assert(0 <= idx < k);
                assert(c1[idx] == c0[idx]);
            }
        }
    } else {
        assert forall|i: int| 0 <= i < es0.len() implies (#[trigger] es0[i]).0 != n by {
            assert(es0[i].0 == fs0[i]);
        }
        assert(key_position(es0, n) is None);
        assert(fs1 == fs0.push(n));
        assert forall|j: int| 0 <= j < es1.len() implies {
            &&& (#[trigger] es1[j]).0 == fs1[j]
            &&& 0 <= last_named(c1, es1[j].0) < c1.len()
            &&& crate_settings_of(es1[j].1, c1[last_named(c1, es1[j].0)], unit, packages, edition, version)
        } by {
            if j < es0.len() {
                assert(es1[j] == es0[j]);
                assert(es0[j].0 == fs0[j]);
                assert(fs0[j] != n);
                let idx = last_named(c0, es0[j].0);
                assert(0 <= idx < k);
                assert(c1[idx] == c0[idx]);
            }
        }
    }
}

/// Every package that a component belongs to has no edition or a known one.
pub open spec fn editions_known(unit: CompilationUnitMetadata, packages: Seq<PackageMetadata>) -> bool {
    forall|k: int|
        0 <= k < unit.components@.len() ==> match first_package_with_id(
            packages,
            #[trigger] unit.components@[k].package@,
        ) {
            Some(j) => match packages[j].edition {
                Some(e) => edition_of(e@) is Some,
                None => true,
            },
            None => true,
        }
}

/// The components that are not the corelib's, as crate name and source root.
pub open spec fn crate_roots_of(components: Seq<ComponentMetadata>, corelib_id: Seq<char>) -> Seq<
    (Seq<char>, Seq<char>),
>
    decreases components.len(),
{
    if components.len() == 0 {
        Seq::empty()
    } else {
        let c = components.last();
        crate_roots_of(components.drop_last(), corelib_id) + if c.package@ != corelib_id {
            seq![(c.name@, c.source_root@)]
        } else {
            Seq::empty()
        }
    }
}

/// The values of a list of pairs of strings.
pub open spec fn pair_views(v: Seq<(String, String)>) -> Seq<(Seq<char>, Seq<char>)> {
    v.map_values(|p: (String, String)| (p.0@, p.1@))
}

fn first_package_with_id_exec(packages: &Vec<PackageMetadata>, id: &str) -> (r: Option<usize>)
    ensures
        match r {
            Some(j) => first_package_with_id(packages@, id@) == Some(j as int) && j < packages@.len(),
            None => first_package_with_id(packages@, id@) is None,
        },
{
    let mut i: usize = 0;
    assert(packages@.skip(0) =~= packages@);
    while i < packages.len()
        invariant
            i <= packages@.len(),
            first_package_with_id(packages@, id@) == match first_package_with_id(
                packages@.skip(i as int),
                id@,
            ) {
                Some(k) => Some(k + i),
                None => None,
            },
        decreases packages@.len() - i,
    {
        assert(packages@.skip(i as int).drop_first() =~= packages@.skip(i + 1));
        if str_eq(packages[i].id.as_str(), id) {
            return Some(i);
        }
        i = i + 1;
    }
    None
}

fn version_of_package_named_exec(packages: &Vec<PackageMetadata>, name: &str) -> (r: Option<String>)
    ensures
        opt_view(r) == version_of_package_named(packages@, name@),
{
    let mut i: usize = 0;
    assert(packages@.skip(0) =~= packages@);
    while i < packages.len()
        invariant
            i <= packages@.len(),
            version_of_package_named(packages@, name@) == version_of_package_named(
                packages@.skip(i as int),
                name@,
            ),
        decreases packages@.len() - i,
    {
        assert(packages@.skip(i as int).drop_first() =~= packages@.skip(i + 1));
        if str_eq(packages[i].name.as_str(), name) {
            return Some(packages[i].version.clone());
        }
        i = i + 1;
    }
    None
}

fn has_component_named_exec(unit: &CompilationUnitMetadata, name: &str) -> (r: bool)
    ensures
        r == has_component_named(*unit, name@),
{
    let mut k: usize = 0;
    while k < unit.components.len()
        invariant
            k <= unit.components@.len(),
            forall|j: int| 0 <= j < k ==> #[trigger] unit.components@[j].name@ != name@,
        decreases unit.components@.len() - k,
    {
        if str_eq(unit.components[k].name.as_str(), name) {
            return true;
        }
        k = k + 1;
    }
    false
}

fn find_dependency(deps: &Vec<(String, Option<String>)>, name: &str) -> (r: Option<usize>)
    ensures
        match r {
            Some(i) => i < deps@.len() && deps@[i as int].0@ == name@,
            None => forall|i: int| 0 <= i < deps@.len() ==> #[trigger] deps@[i].0@ != name@,
        },
{
    let mut i: usize = 0;
    while i < deps.len()
        invariant
            i <= deps@.len(),
            forall|j: int| 0 <= j < i ==> #[trigger] deps@[j].0@ != name@,
        decreases deps@.len() - i,
    {
        if str_eq(deps[i].0.as_str(), name) {
            return Some(i);
        }
        i = i + 1;
    }
    None
}

fn dependencies_exec(
    unit: &CompilationUnitMetadata,
    packages: &Vec<PackageMetadata>,
    pack: &PackageMetadata,
) -> (r: Vec<(String, Option<String>)>)
    ensures
        dependencies_of(r@, *unit, packages@, *pack),
{
    let mut deps: Vec<(String, Option<String>)> = Vec::new();
    let mut k: usize = 0;
    while k < pack.dependencies.len()
        invariant
            k <= pack.dependencies@.len(),
            forall|i: int, j: int| 0 <= i < j < deps@.len() ==> deps@[i].0@ != deps@[j].0@,
            forall|i: int|
                0 <= i < deps@.len() ==> (exists|m: int|
                    0 <= m < k && #[trigger] pack.dependencies@[m]@ == deps@[i].0@)
                    && has_component_named(*unit, #[trigger] deps@[i].0@) && opt_view(deps@[i].1)
                    == version_of_package_named(packages@, deps@[i].0@),
            forall|m: int|
                0 <= m < k && has_component_named(*unit, #[trigger] pack.dependencies@[m]@)
                    ==> exists|i: int| 0 <= i < deps@.len() && #[trigger] deps@[i].0@ == pack.dependencies@[m]@,
        decreases pack.dependencies@.len() - k,
    {
        let name = pack.dependencies[k].as_str();
        if has_component_named_exec(unit, name) {
            if find_dependency(&deps, name).is_none() {
                let version = version_of_package_named_exec(packages, name);
                let ghost before = deps@;
                deps.push((pack.dependencies[k].clone(), version));
                assert(deps@[before.len() as int].0@ == pack.dependencies@[k as int]@);
                assert forall|m: int|
                    0 <= m < k + 1 && has_component_named(*unit, #[trigger] pack.dependencies@[m]@)
                        implies exists|i: int| 0 <= i < deps@.len() && #[trigger] deps@[i].0@ == pack.dependencies@[m]@ by {
                    if m < k {
                        let i = choose|i: int| 0 <= i < before.len() && #[trigger] before[i].0@ == pack.dependencies@[m]@;
                        assert(deps@[i].0@ == pack.dependencies@[m]@);
                    } else {
                        assert(deps@[before.len() as int].0@ == pack.dependencies@[m]@);
                    }
                }
            }
        }
        k = k + 1;
    }
    let ghost before = deps@;
    let ghost mut idx: int = 0;
    match find_dependency(&deps, pack.name.as_str()) {
        Some(i) => {
            deps.set(i, (pack.name.clone(), Some(pack.version.clone())));
            proof {
                idx = i as int;
            }
        },
        None => {
            deps.push((pack.name.clone(), Some(pack.version.clone())));
            proof {
                idx = before.len() as int;
            }
        },
    }
    assert(0 <= idx < deps@.len() && deps@[idx].0@ == pack.name@);
    assert forall|i: int| 0 <= i < deps@.len() && i != idx implies deps@[i] == before[i] by {}
    assert forall|i: int|
        0 <= i < deps@.len() implies dependency_in(*unit, *pack, #[trigger] deps@[i].0@) && opt_view(
        deps@[i].1,
    ) == dependency_version(packages@, *pack, deps@[i].0@) by {
        if deps@[i].0@ != pack.name@ {
            assert(deps@[i] == before[i]);
        }
    }
    assert forall|name: Seq<char>| dependency_in(*unit, *pack, name) implies exists|i: int|
        0 <= i < deps@.len() && #[trigger] deps@[i].0@ == name by {
        if name == pack.name@ {
            assert(deps@[idx].0@ == name);
        } else {
            let m = choose|m: int| 0 <= m < pack.dependencies@.len() && #[trigger] pack.dependencies@[m]@ == name;
            assert(has_component_named(*unit, pack.dependencies@[m]@));
            let i = choose|i: int| 0 <= i < before.len() && #[trigger] before[i].0@ == pack.dependencies@[m]@;
            assert(deps@[i].0@ == name);
        }
    }
    deps
}

fn crate_settings(
    c: &ComponentMetadata,
    unit: &CompilationUnitMetadata,
    packages: &Vec<PackageMetadata>,
    edition: Edition,
    version: &str,
) -> (r: CrateSettings)
    requires
        match first_package_with_id(packages@, c.package@) {
            Some(j) => match packages@[j].edition {
                Some(e) => edition_of(e@) is Some,
                None => true,
            },
            None => true,
        },
    ensures
        crate_settings_of(r, *c, *unit, packages@, edition, version@),
{
    let cfg_set = match &c.cfg {
        Some(cfgs) => Some(to_cairo_cfg(cfgs)),
        None => None,
    };
    let (package_ed, dependencies) = match first_package_with_id_exec(packages, c.package.as_str()) {
        Some(j) => {
            let pack = &packages[j];
            let dependencies = dependencies_exec(unit, packages, pack);
            let ed = match &pack.edition {
                Some(e) => match to_cairo_edition(e.as_str()) {
                    Ok(ed) => ed,
                    Err(_) => {
                        proof {
                            assert(false);
                        }
                        edition
                    },
                },
                None => edition,
            };
            (ed, dependencies)
        },
        None => (edition, Vec::new()),
    };
    CrateSettings {
        edition: package_ed,
        cfg_set,
        dependencies,
        negative_impls: false,
        coupons: false,
        version: Some(String::from_str(version)),
    }
}

/// The configuration of the project of a compilation unit: the root of each
/// crate but the corelib's, and for each crate name the settings of its last
/// component: the edition of its package (or `edition`), its `cfg` set, its
/// dependencies and `version`.
pub fn build_project_config(
    compilation_unit: &CompilationUnitMetadata,
    corelib_id: &str,
    corelib: String,
    package_path: String,
    edition: Edition,
    version: &str,
    packages: &Vec<PackageMetadata>,
) -> (r: Result<ProjectConfig, UnknownEdition>)
    requires
        editions_known(*compilation_unit, packages@),
    ensures
        match r {
            Ok(c) => {
                &&& c.base_path@ == package_path@
                &&& c.corelib@ == corelib@
                &&& pair_views(c.crate_roots@) == crate_roots_of(
                    compilation_unit.components@,
                    corelib_id@,
                )
                &&& settings_of_components(
                    settings_entries(c.crates_config),
                    compilation_unit.components@,
                    *compilation_unit,
                    packages@,
                    edition,
                    version@,
                )
            },
            Err(_) => false,
        },
{
    let components = &compilation_unit.components;
    let mut crate_roots: Vec<(String, String)> = Vec::new();
    let mut crates_config = settings_map_new();
    let mut k: usize = 0;
    assert(first_seen(component_names(components@.take(0))) =~= Seq::<Seq<char>>::empty()) by {
        assert(component_names(components@.take(0)) =~= Seq::<Seq<char>>::empty());
    }
    while k < components.len()
        invariant
            k <= components@.len(),
            components == &compilation_unit.components,
            editions_known(*compilation_unit, packages@),
            pair_views(crate_roots@) == crate_roots_of(components@.take(k as int), corelib_id@),
            settings_of_components(
                settings_entries(crates_config),
                components@.take(k as int),
                *compilation_unit,
                packages@,
                edition,
                version@,
            ),
        decreases components@.len() - k,
    {
        let component = &components[k];
        let ghost before = pair_views(crate_roots@);
        if !str_eq(component.package.as_str(), corelib_id) {
            crate_roots.push((component.name.clone(), component.source_root.clone()));
        }
        assert(components@.take(k + 1).drop_last() =~= components@.take(k as int));
        assert(pair_views(crate_roots@) =~= crate_roots_of(components@.take(k + 1), corelib_id@));
        assert(first_package_with_id(packages@, components@[k as int].package@) == first_package_with_id(
            packages@,
            compilation_unit.components@[k as int].package@,
        ));
        let settings = crate_settings(component, compilation_unit, packages, edition, version);
        let ghost es0 = settings_entries(crates_config);
        settings_map_insert(&mut crates_config, component.name.clone(), settings);
        proof {
            lemma_settings_step(
                es0,
                settings_entries(crates_config),
                components@,
                k as int,
                settings,
                *compilation_unit,
                packages@,
                edition,
                version@,
            );
        }
        k = k + 1;
    }
    assert(components@.take(components@.len() as int) =~= components@);
    Ok(
        ProjectConfig {
            base_path: package_path,
            corelib,
            crate_roots,
            crates_config,
        },
    )
}

/// The targets of kind `test`, in order.
pub open spec fn test_targets(targets: Seq<TargetMetadata>) -> Seq<TargetMetadata>
    decreases targets.len(),
{
    if targets.len() == 0 {
        Seq::empty()
    } else if targets.last().kind@ == "test"@ {
        test_targets(targets.drop_last()).push(targets.last())
    } else {
        test_targets(targets.drop_last())
    }
}

/// The test targets of a package.
pub fn find_testable_targets(package: &PackageMetadata) -> (r: Vec<&TargetMetadata>)
    ensures
        r@.map_values(|t: &TargetMetadata| *t) == test_targets(package.targets@),
{
    let mut out: Vec<&TargetMetadata> = Vec::new();
    let mut i: usize = 0;
    while i < package.targets.len()
        invariant
            i <= package.targets@.len(),
            out@.map_values(|t: &TargetMetadata| *t) == test_targets(package.targets@.take(i as int)),
        decreases package.targets@.len() - i,
    {
        let target = &package.targets[i];
        assert(package.targets@.take(i + 1).drop_last() =~= package.targets@.take(i as int));
        let ghost before = out@.map_values(|t: &TargetMetadata| *t);
        if str_eq(target.kind.as_str(), "test") {
            out.push(target);
            assert(out@.map_values(|t: &TargetMetadata| *t) =~= before.push(*target));
        } else {
            assert(out@.map_values(|t: &TargetMetadata| *t) =~= before);
        }
        i = i + 1;
    }
    assert(package.targets@.take(package.targets@.len() as int) =~= package.targets@);
    out
}

/// Two targets are the same: same kind, name, source file and parameters.
pub open spec fn same_target(a: TargetMetadata, b: TargetMetadata) -> bool {
    &&& a.kind@ == b.kind@
    &&& a.name@ == b.name@
    &&& a.source_path@ == b.source_path@
    &&& a.params@ == b.params@
}

fn same_target_exec(a: &TargetMetadata, b: &TargetMetadata) -> (r: bool)
    ensures
        r == same_target(*a, *b),
{
    str_eq(a.kind.as_str(), b.kind.as_str()) && str_eq(a.name.as_str(), b.name.as_str()) && str_eq(
        a.source_path.as_str(),
        b.source_path.as_str(),
    ) && str_eq(a.params.as_str(), b.params.as_str())
}

/// The unit is to be linted for the package: it is the package's, or, with
/// tests, it compiles one of the package's test targets.
pub open spec fn unit_selected(
    unit: CompilationUnitMetadata,
    package: PackageMetadata,
) -> bool {
    unit.package@ == package.id@ || exists|k: int|
        0 <= k < test_targets(package.targets@).len() && same_target(
            #[trigger] test_targets(package.targets@)[k],
            unit.target,
        )
}

/// The index of the first unit of the package.
pub open spec fn first_unit_of(units: Seq<CompilationUnitMetadata>, id: Seq<char>) -> Option<int>
    decreases units.len(),
{
    if units.len() == 0 {
        None
    } else if units[0].package@ == id {
        Some(0)
    } else {
        match first_unit_of(units.drop_first(), id) {
            Some(i) => Some(i + 1),
            None => None,
        }
    }
}

/// The indices of the units that satisfy `unit_selected`, in order.
pub open spec fn selected_units(units: Seq<CompilationUnitMetadata>, package: PackageMetadata) -> Seq<
    int,
>
    decreases units.len(),
{
    if units.len() == 0 {
        Seq::empty()
    } else if unit_selected(units.last(), package) {
        selected_units(units.drop_last(), package).push(units.len() - 1)
    } else {
        selected_units(units.drop_last(), package)
    }
}

/// The compilation units to lint for a package, by index: with tests, every
/// unit of the package or of one of its test targets; else the package's first.
pub fn compilation_units_to_lint(
    units: &Vec<CompilationUnitMetadata>,
    package: &PackageMetadata,
    test: bool,
) -> (r: Vec<usize>)
    requires
        !test ==> first_unit_of(units@, package.id@) is Some,
    ensures
        test ==> r@.map_values(|i: usize| i as int) == selected_units(units@, *package),
        !test ==> r@.map_values(|i: usize| i as int) == seq![first_unit_of(units@, package.id@)->0],
{
    let mut out: Vec<usize> = Vec::new();
    if test {
        let tests_targets = find_testable_targets(package);
        let ghost tt = tests_targets@.map_values(|t: &TargetMetadata| *t);
        let mut i: usize = 0;
        while i < units.len()
            invariant
                tt == test_targets(package.targets@),
                tt == tests_targets@.map_values(|t: &TargetMetadata| *t),
                i <= units@.len(),
                out@.map_values(|i: usize| i as int) == selected_units(units@.take(i as int), *package),
            decreases units@.len() - i,
        {
            let unit = &units[i];
            let mut found = false;
            let mut k: usize = 0;
            while k < tests_targets.len()
                invariant
                    tt == tests_targets@.map_values(|t: &TargetMetadata| *t),
                    k <= tests_targets@.len(),
                    found == exists|j: int| 0 <= j < k && same_target(#[trigger] tt[j], unit.target),
                decreases tests_targets@.len() - k,
            {
                assert(tt[k as int] == *tests_targets@[k as int]);
                if same_target_exec(tests_targets[k], &unit.target) {
                    found = true;
                }
                k = k + 1;
            }
            assert(units@.take(i + 1).drop_last() =~= units@.take(i as int));
            assert(units@.take(i + 1).last() == *unit);
            let ghost before = out@.map_values(|i: usize| i as int);
            if str_eq(unit.package.as_str(), package.id.as_str()) || found {
                out.push(i);
                assert(out@.map_values(|i: usize| i as int) =~= before.push(i as int));
            } else {
                assert(out@.map_values(|i: usize| i as int) =~= before);
            }
            i = i + 1;
        }
        assert(units@.take(units@.len() as int) =~= units@);
    } else {
        let mut i: usize = 0;
        assert(units@.skip(0) =~= units@);
        while i < units.len()
            invariant
                !test,
                out@.len() == 0,
                i <= units@.len(),
                first_unit_of(units@, package.id@) is Some,
                first_unit_of(units@, package.id@) == match first_unit_of(
                    units@.skip(i as int),
                    package.id@,
                ) {
                    Some(k) => Some(k + i),
                    None => None,
                },
            decreases units@.len() - i,
        {
            assert(units@.skip(i as int).drop_first() =~= units@.skip(i + 1));
            if str_eq(units[i].package.as_str(), package.id.as_str()) {
                out.push(i);
                assert(out@.map_values(|i: usize| i as int) =~= seq![i as int]);
                return out;
            }
            i = i + 1;
        }
        proof {
            assert(false);
        }
    }
    out
}

/// A diagnostic is shown unless it is a `panic` one and panics are not linted
/// (`message` is that of a lint diagnostic, `None` for other diagnostics).
pub open spec fn is_shown(message: Option<Seq<char>>, should_lint_panics: bool) -> bool {
    match message {
        Some(m) => kind_of_message(m) != CairoLintKind::Panic || should_lint_panics,
        None => true,
    }
}

/// Whether a diagnostic is shown: any but the `panic` lint's, and that one
/// when the package's configuration asks for it.
pub fn diagnostic_is_shown(message: Option<&str>, should_lint_panics: bool) -> (r: bool)
    ensures
        r == is_shown(
            match message {
                Some(m) => Some(m@),
                None => None,
            },
            should_lint_panics,
        ),
{
    match message {
        Some(m) => {
            let is_panic = crate::plugin::diagnostic_kind_from_message(m) == CairoLintKind::Panic;
            (is_panic && should_lint_panics) || !is_panic
        },
        None => true,
    }
}

} // verus!
