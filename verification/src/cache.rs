//! The cache manager: name validation, configuration merging, path
//! materialization, id issuance and the in-memory name-to-object registry.

use vstd::prelude::*;
use crate::config::{
    spec_merged, spec_parsed_config, CacheConfig, ConfigView, FormatConfigView, PathConfigView,
};
use crate::error::CacheError;
use crate::object::{CacheObject, ObjectView};
use crate::utils::{
    home_dir_string, join_path_chars, replace_chars, resolve_path, spec_expand_home,
    spec_join_path, spec_opt_str_view, spec_replace, spec_u32_digits, str_to_chars, u32_to_chars,
    valid_name_common, validate_name, EnvVars,
};
use crate::CacheResult;
use vstd::string::StringExecFns;

verus! {

/// Whether chrono accepts `f` as a strftime-style pattern: parsing the
/// pattern yields no invalid or unrecognized specifier.  A property of the
/// pattern alone.
pub uninterp spec fn time_format_ok(f: Seq<char>) -> bool;

/// Formats the current local time with a strftime-style pattern.
///
/// Relies on `chrono::format::StrftimeItems::parse`, which fails exactly
/// when the pattern holds an invalid or unrecognized specifier - a property
/// of the pattern alone, named `time_format_ok` - and on
/// `chrono::DateTime::<chrono::Local>::format_with_items`, which renders
/// valid items against a complete local date-time without error.  The
/// rendered text depends on the clock, so nothing is promised of it.
#[verifier::external_body]
fn format_local_time(fmt: &str) -> (r: Option<String>)
    ensures
        r is Some <==> time_format_ok(fmt@),
{
    let items = match chrono::format::StrftimeItems::new(fmt).parse() {
        Ok(items) => items,
        Err(_) => return None,
    };
    Some(chrono::Local::now().format_with_items(items.into_iter()).to_string())
}

/// The first registry entry named `n`, scanning left to right.
pub open spec fn spec_lookup(r: Seq<ObjectView>, n: Seq<char>) -> Option<ObjectView>
    decreases r.len(),
{
    if r.len() == 0 {
        Option::None
    } else if r[0].name == n {
        Option::Some(r[0])
    } else {
        spec_lookup(r.drop_first(), n)
    }
}

/// The registry with `o` written over the first entry of the same name, or
/// appended when no entry carries that name.
pub open spec fn spec_upsert(r: Seq<ObjectView>, o: ObjectView) -> Seq<ObjectView>
    decreases r.len(),
{
    if r.len() == 0 {
        seq![o]
    } else if r[0].name == o.name {
        seq![o] + r.drop_first()
    } else {
        seq![r[0]] + spec_upsert(r.drop_first(), o)
    }
}

/// The registry without its first entry named `n`; unchanged when no entry
/// carries that name.
pub open spec fn spec_remove_name(r: Seq<ObjectView>, n: Seq<char>) -> Seq<ObjectView>
    decreases r.len(),
{
    if r.len() == 0 {
        r
    } else if r[0].name == n {
        r.drop_first()
    } else {
        seq![r[0]] + spec_remove_name(r.drop_first(), n)
    }
}

/// A lookup succeeds exactly when some entry carries the name.
proof fn lemma_lookup_some_iff_exists(r: Seq<ObjectView>, n: Seq<char>)
    ensures
        (spec_lookup(r, n) is Some) <==> exists|i: int| 0 <= i < r.len() && r[i].name == n,
    decreases r.len(),
{
    if r.len() > 0 {
        lemma_lookup_some_iff_exists(r.drop_first(), n);
        if r[0].name == n {
        } else {
            if exists|i: int| 0 <= i < r.len() && r[i].name == n {
                let i = choose|i: int| 0 <= i < r.len() && r[i].name == n;
                assert(r.drop_first()[i - 1] == r[i]);
            }
            if exists|i: int| 0 <= i < r.drop_first().len() && r.drop_first()[i].name == n {
                let i = choose|i: int|
                    0 <= i < r.drop_first().len() && r.drop_first()[i].name == n;
                assert(r[i + 1] == r.drop_first()[i]);
            }
        }
    }
}

/// Scanning past a prefix free of the name leaves the lookup unchanged.
proof fn lemma_lookup_skip(r: Seq<ObjectView>, n: Seq<char>, i: int)
    requires
        0 <= i <= r.len(),
        forall|k: int| 0 <= k < i ==> r[k].name != n,
    ensures
        spec_lookup(r, n) == spec_lookup(r.skip(i), n),
    decreases i,
{
    if i > 0 {
        assert(r[0].name != n);
        lemma_lookup_skip(r.drop_first(), n, i - 1);
        assert(r.drop_first().skip(i - 1) =~= r.skip(i));
    } else {
        assert(r.skip(0) =~= r);
    }
}

/// Writing over the entry at `i` - the first entry of the written name - is
/// what `spec_upsert` does when the name is present.
proof fn lemma_upsert_present(r: Seq<ObjectView>, o: ObjectView, i: int)
    requires
        0 <= i < r.len(),
        r[i].name == o.name,
        forall|k: int| 0 <= k < i ==> r[k].name != o.name,
    ensures
        spec_upsert(r, o) == r.update(i, o),
    decreases i,
{
    if i == 0 {
        assert(spec_upsert(r, o) =~= r.update(0, o));
    } else {
        assert(r[0].name != o.name);
        assert(r.drop_first()[i - 1] == r[i]);
        assert(forall|k: int| 0 <= k < i - 1 ==> r.drop_first()[k] == r[k + 1]);
        lemma_upsert_present(r.drop_first(), o, i - 1);
        assert(seq![r[0]] + r.drop_first().update(i - 1, o) =~= r.update(i, o));
    }
}

/// Appending is what `spec_upsert` does when the name is absent.
proof fn lemma_upsert_absent(r: Seq<ObjectView>, o: ObjectView)
    requires
        forall|k: int| 0 <= k < r.len() ==> r[k].name != o.name,
    ensures
        spec_upsert(r, o) == r.push(o),
    decreases r.len(),
{
    if r.len() == 0 {
        assert(spec_upsert(r, o) =~= r.push(o));
    } else {
        assert(forall|k: int| 0 <= k < r.drop_first().len() ==> r.drop_first()[k] == r[k + 1]);
        lemma_upsert_absent(r.drop_first(), o);
        assert(seq![r[0]] + r.drop_first().push(o) =~= r.push(o));
    }
}

/// Removing the entry at `i` - the first entry of the name - is what
/// `spec_remove_name` does when the name is present.
proof fn lemma_remove_present(r: Seq<ObjectView>, n: Seq<char>, i: int)
    requires
        0 <= i < r.len(),
        r[i].name == n,
        forall|k: int| 0 <= k < i ==> r[k].name != n,
    ensures
        spec_remove_name(r, n) == r.remove(i),
    decreases i,
{
    if i == 0 {
        assert(spec_remove_name(r, n) =~= r.remove(0));
    } else {
        assert(r[0].name != n);
        assert(r.drop_first()[i - 1] == r[i]);
        assert(forall|k: int| 0 <= k < i - 1 ==> r.drop_first()[k] == r[k + 1]);
        lemma_remove_present(r.drop_first(), n, i - 1);
        assert(seq![r[0]] + r.drop_first().remove(i - 1) =~= r.remove(i));
    }
}

/// A registry without the name is left unchanged by `spec_remove_name`.
proof fn lemma_remove_absent(r: Seq<ObjectView>, n: Seq<char>)
    requires
        forall|k: int| 0 <= k < r.len() ==> r[k].name != n,
    ensures
        spec_remove_name(r, n) == r,
    decreases r.len(),
{
    if r.len() > 0 {
        assert(forall|k: int| 0 <= k < r.drop_first().len() ==> r.drop_first()[k] == r[k + 1]);
        lemma_remove_absent(r.drop_first(), n);
        assert(seq![r[0]] + r.drop_first() =~= r);
    }
}

/// What a successful lookup returns carries the looked-up name: getting
/// `x` can only yield an object named `x`.
pub proof fn lemma_lookup_name_matches(r: Seq<ObjectView>, n: Seq<char>)
    requires
        spec_lookup(r, n) is Some,
    ensures
        spec_lookup(r, n).unwrap().name == n,
    decreases r.len(),
{
    if r.len() > 0 && r[0].name != n {
        lemma_lookup_name_matches(r.drop_first(), n);
    }
}

/// After an upsert, looking the written name up finds exactly the written
/// entry.  Together with `Cache::create`'s contract this is the
/// create-then-get guarantee: creating `x` and then getting `x` yields an
/// object named `x`.
pub proof fn lemma_upsert_finds_inserted(r: Seq<ObjectView>, o: ObjectView)
    ensures
        spec_lookup(spec_upsert(r, o), o.name) == Option::Some(o),
    decreases r.len(),
{
    if r.len() == 0 {
    } else if r[0].name == o.name {
        assert((seq![o] + r.drop_first())[0] == o);
    } else {
        lemma_upsert_finds_inserted(r.drop_first(), o);
        let u = seq![r[0]] + spec_upsert(r.drop_first(), o);
        assert(u[0] == r[0]);
        assert(u.drop_first() =~= spec_upsert(r.drop_first(), o));
    }
}

/// An upsert leaves the lookup of every other name unchanged.
pub proof fn lemma_upsert_preserves_others(r: Seq<ObjectView>, o: ObjectView, n: Seq<char>)
    requires
        n != o.name,
    ensures
        spec_lookup(spec_upsert(r, o), n) == spec_lookup(r, n),
    decreases r.len(),
{
    if r.len() == 0 {
        let u = seq![o];
        assert(spec_upsert(r, o) == u);
        assert(u[0] == o);
        assert(u.drop_first() =~= Seq::<ObjectView>::empty());
        assert(spec_lookup(u.drop_first(), n) is None);
        assert(spec_lookup(u, n) is None);
        assert(spec_lookup(r, n) is None);
    } else if r[0].name == o.name {
        let u = seq![o] + r.drop_first();
        assert(u[0] == o);
        assert(u.drop_first() =~= r.drop_first());
        assert(spec_lookup(u, n) == spec_lookup(r.drop_first(), n));
        assert(spec_lookup(r, n) == spec_lookup(r.drop_first(), n));
    } else {
        lemma_upsert_preserves_others(r.drop_first(), o, n);
        let u = seq![r[0]] + spec_upsert(r.drop_first(), o);
        assert(u[0] == r[0]);
        assert(u.len() > 0);
        assert(u.drop_first() =~= spec_upsert(r.drop_first(), o));
        if r[0].name == n {
            assert(spec_lookup(u, n) == Option::Some(u[0]));
            assert(spec_lookup(r, n) == Option::Some(r[0]));
        } else {
            assert(spec_lookup(u, n) == spec_lookup(u.drop_first(), n));
            assert(spec_lookup(r, n) == spec_lookup(r.drop_first(), n));
        }
    }
}

/// The filename template with `{name}`, `{id}` and `{time}` substituted, in
/// that order; placeholders the template does not contain, and tokens it
/// contains that are not placeholders, are left verbatim.
pub open spec fn spec_render_filename(
    template: Seq<char>,
    name: Seq<char>,
    id: u32,
    time: Seq<char>,
) -> Seq<char> {
    spec_replace(
        spec_replace(spec_replace(template, "{name}"@, name), "{id}"@, spec_u32_digits(id as int)),
        "{time}"@,
        time,
    )
}

/// The backing path a cache object gets on this platform: the configured
/// linux base path with a leading `~` expanded to the given home directory,
/// joined with the rendered filename.
pub open spec fn spec_resolved_path(
    cfg: ConfigView,
    name: Seq<char>,
    id: u32,
    home: Option<Seq<char>>,
    time: Seq<char>,
) -> Seq<char> {
    spec_join_path(
        spec_expand_home(cfg.path.linux, home),
        spec_render_filename(cfg.format.filename, name, id, time),
    )
}

/// The path `path` is what this platform's resolution yields under `cfg`
/// for this name and id, for some home directory and some rendered time.
pub open spec fn spec_path_resolves(
    cfg: ConfigView,
    name: Seq<char>,
    id: u32,
    path: Seq<char>,
) -> bool {
    exists|home: Option<Seq<char>>, time: Seq<char>| path == spec_resolved_path(
        cfg,
        name,
        id,
        home,
        time,
    )
}

/// The configuration a creation call works under: the manager's base
/// configuration, merged with the parsed override when one was supplied.
pub open spec fn spec_effective_config(base: ConfigView, custom: Option<Seq<char>>) -> ConfigView {
    match custom {
        Option::None => base,
        Option::Some(s) => match spec_parsed_config(s) {
            Option::Some(t) => spec_merged(
                base,
                ConfigView {
                    path: PathConfigView { windows: t.0, linux: t.1 },
                    format: FormatConfigView { filename: t.2, time: t.3 },
                },
            ),
            Option::None => base,
        },
    }
}

/// Computes the backing path a cache object gets under `cfg` for the given
/// name, id, home directory and rendered time, exactly as `Cache::create`
/// does on this platform.
pub fn resolved_cache_path(
    cfg: &CacheConfig,
    name: &str,
    id: u32,
    home: Option<&str>,
    time: &str,
) -> (r: String)
    ensures
        r@ == spec_resolved_path(cfg@, name@, id, spec_opt_str_view(home), time@),
{
    let env = EnvVars::empty();
    let base = resolve_path(cfg.path.linux.as_str(), false, &env, home);
    let base_v = str_to_chars(base.as_str());
    let template = str_to_chars(cfg.format.filename.as_str());
    let name_v = str_to_chars(name);
    let id_v = u32_to_chars(id);
    let time_v = str_to_chars(time);
    let f1 = replace_chars(&template, &str_to_chars("{name}"), &name_v);
    let f2 = replace_chars(&f1, &str_to_chars("{id}"), &id_v);
    let f3 = replace_chars(&f2, &str_to_chars("{time}"), &time_v);
    let joined = join_path_chars(&base_v, &f3);
    crate::utils::chars_to_string(&joined)
}

/// Main cache manager handling multiple cache objects.
pub struct Cache {
    config: CacheConfig,
    objects: Vec<CacheObject>,
    next_id: u32,
}

impl Cache {
    /// The registry contents: one entry per registered object, in insertion
    /// order.
    pub closed spec fn registry(&self) -> Seq<ObjectView> {
        self.objects@.map_values(|o: CacheObject| o@)
    }

    /// The id the next successful creation will be issued.
    pub closed spec fn spec_next_id(&self) -> u32 {
        self.next_id
    }

    /// The manager's base configuration.
    pub closed spec fn spec_config(&self) -> ConfigView {
        self.config@
    }

    /// The manager's invariant: registered names are unique, every issued
    /// id lies below the counter, and the registry is smaller than the
    /// counter (so a count always fits the id type).
    pub open spec fn wf(&self) -> bool {
        &&& forall|i: int, j: int|
            0 <= i < j < self.registry().len() ==> self.registry()[i].name
                != self.registry()[j].name
        &&& forall|i: int| 0 <= i < self.registry().len() ==> self.registry()[i].id
            < self.spec_next_id()
        &&& self.registry().len() < self.spec_next_id()
    }

    /// Creates a new `Cache` with the given configuration and an empty
    /// registry; ids start at 1.
    pub fn new(config: CacheConfig) -> (r: Self)
        ensures
            r.wf(),
            r.registry() == Seq::<ObjectView>::empty(),
            r.spec_next_id() == 1u32,
            r.spec_config() == config@,
    {
        let r = Cache { config, objects: Vec::new(), next_id: 1 };
        proof {
            assert(r.registry() =~= Seq::<ObjectView>::empty());
        }
        r
    }

    /// The index of the first registry entry named `name`, if any.
    fn find_index(&self, name: &str) -> (r: Option<usize>)
        ensures
            match r {
                Option::Some(i) => i < self.registry().len() && self.registry()[i as int].name
                    == name@ && (forall|k: int| 0 <= k < i ==> self.registry()[k].name != name@)
                    && spec_lookup(self.registry(), name@) == Option::Some(
                    self.registry()[i as int],
                ),
                Option::None => spec_lookup(self.registry(), name@) is None,
            },
    {
        let mut i: usize = 0;
        while i < self.objects.len()
            invariant
                i <= self.registry().len(),
                self.registry().len() == self.objects@.len(),
                forall|k: int| 0 <= k < i ==> self.registry()[k].name != name@,
                forall|k: int|
                    0 <= k < self.objects@.len() ==> self.registry()[k] == self.objects@[k]@,
            decreases self.objects@.len() - i,
        {
            if crate::utils::str_eq(self.objects[i].name(), name) {
                proof {
                    lemma_lookup_skip(self.registry(), name@, i as int);
                    assert(self.registry().skip(i as int)[0] == self.registry()[i as int]);
                    assert(self.registry().skip(i as int).len() > 0);
                }
                return Some(i);
            }
            i = i + 1;
        }
        proof {
            lemma_lookup_skip(self.registry(), name@, i as int);
            assert(self.registry().skip(i as int) =~= Seq::<ObjectView>::empty());
        }
        None
    }

    /// Creates and registers a new cache object, optionally under a JSON
    /// configuration override for this one call.
    ///
    /// The name is validated first; the override, when supplied, must parse
    /// and is merged field-wise onto the base configuration (empty override
    /// fields keep the base values); the backing path is the resolved linux
    /// base path joined with the filename template after `{name}`, `{id}`
    /// and `{time}` substitution.  A name already registered is silently
    /// written over - the prior entry leaves the registry, its backing file
    /// is not deleted - and ids are issued strictly increasing, never
    /// reused.  The parent directory of the returned object's path is not
    /// created here; that filesystem effect is the embedding application's.
    #[verifier::rlimit(30)]
    pub fn create(&mut self, name: &str, custom_config: Option<&str>) -> (r: CacheResult<
        CacheObject,
    >)
        requires
            old(self).wf(),
        ensures
            final(self).wf(),
            final(self).spec_config() == old(self).spec_config(),
            final(self).spec_next_id() >= old(self).spec_next_id(),
            r is Ok ==> valid_name_common(name@),
            r is Ok ==> (custom_config matches Option::Some(s) ==> spec_parsed_config(s@)
                is Some),
            r is Ok ==> time_format_ok(
                spec_effective_config(
                    old(self).spec_config(),
                    spec_opt_str_view(custom_config),
                ).format.time,
            ),
            r matches Ok(obj) ==> obj@.name == name@ && obj@.id == old(self).spec_next_id(),
            r is Ok ==> final(self).spec_next_id() == old(self).spec_next_id() + 1,
            r matches Ok(obj) ==> final(self).registry() == spec_upsert(
                old(self).registry(),
                obj@,
            ),
            r matches Ok(obj) ==> spec_path_resolves(
                spec_effective_config(
                    old(self).spec_config(),
                    spec_opt_str_view(custom_config),
                ),
                name@,
                obj@.id,
                obj@.path,
            ),
            r is Err ==> final(self).registry() == old(self).registry(),
            r is Err ==> final(self).spec_next_id() == old(self).spec_next_id(),
            r matches Err(e) ==> if !valid_name_common(name@) {
                e matches CacheError::InvalidName(_)
            } else if old(self).spec_next_id() == u32::MAX {
                e matches CacheError::Generic(_)
            } else if custom_config matches Option::Some(s) && spec_parsed_config(s@) is None {
                e matches CacheError::ConfigParse(_)
            } else {
                e matches CacheError::InvalidConfig(_) && !time_format_ok(
                    spec_effective_config(
                        old(self).spec_config(),
                        spec_opt_str_view(custom_config),
                    ).format.time,
                )
            },
    {
        match validate_name(name) {
            Ok(_) => {},
            Err(e) => {
                return Err(e);
            },
        }
        if self.next_id == u32::MAX {
            return Err(CacheError::Generic(String::from_str("cache id space exhausted")));
        }
        let merged: CacheConfig = match custom_config {
            Some(cfg_str) => match CacheConfig::new(cfg_str) {
                Ok(ov) => self.config.merge_override(&ov),
                Err(e) => {
                    return Err(e);
                },
            },
            None => self.config.clone(),
        };
        proof {
            assert(merged@ == spec_effective_config(
                self.spec_config(),
                spec_opt_str_view(custom_config),
            ));
        }
        let time = match format_local_time(merged.format.time.as_str()) {
            Some(t) => t,
            None => {
                return Err(
                    CacheError::InvalidConfig(
                        String::from_str("unrecognized time format pattern"),
                    ),
                );
            },
        };
        let id = self.next_id;
        let home = home_dir_string();
        let path = match &home {
            Some(h) => resolved_cache_path(&merged, name, id, Some(h.as_str()), time.as_str()),
            None => resolved_cache_path(&merged, name, id, None, time.as_str()),
        };
        let obj = CacheObject::new(name.to_owned(), path, id);
        let ghost old_reg = self.registry();
        match self.find_index(name) {
            Some(i) => {
                self.objects[i] = obj.clone();
                proof {
                    assert(self.registry() =~= old_reg.update(i as int, obj@));
                    lemma_upsert_present(old_reg, obj@, i as int);
                    let r1 = self.registry();
                    assert(forall|k: int|
                        0 <= k < r1.len() ==> r1[k].name == old_reg[k].name);
                    assert(forall|a: int, b: int|
                        0 <= a < b < r1.len() ==> r1[a].name != r1[b].name);
                    assert(forall|a: int| 0 <= a < r1.len() ==> r1[a].id < id + 1);
                    assert(r1.len() < id + 1);
                }
            },
            None => {
                self.objects.push(obj.clone());
                proof {
                    assert(self.registry() =~= old_reg.push(obj@));
                    lemma_lookup_some_iff_exists(old_reg, name@);
                    assert(forall|k: int| 0 <= k < old_reg.len() ==> old_reg[k].name != name@);
                    lemma_upsert_absent(old_reg, obj@);
                    let r1 = self.registry();
                    assert forall|a: int, b: int|
                        0 <= a < b < r1.len() implies r1[a].name != r1[b].name by {
                        if b < old_reg.len() {
                        } else {
                            assert(r1[b] == obj@);
                            assert(r1[a] == old_reg[a]);
                        }
                    }
                    assert(forall|a: int| 0 <= a < r1.len() ==> r1[a].id < id + 1);
                    assert(r1.len() < id + 1);
                }
            },
        }
        self.next_id = id + 1;
        proof {
            assert(merged@ == spec_effective_config(
                old(self).spec_config(),
                spec_opt_str_view(custom_config),
            ));
            assert(obj@.id == id);
            assert(spec_path_resolves(merged@, name@, id, obj@.path)) by {
                match home {
                    Option::Some(h) => {
                        assert(obj@.path == spec_resolved_path(
                            merged@,
                            name@,
                            id,
                            Option::Some(h@),
                            time@,
                        ));
                    },
                    Option::None => {
                        assert(obj@.path == spec_resolved_path(
                            merged@,
                            name@,
                            id,
                            Option::<Seq<char>>::None,
                            time@,
                        ));
                    },
                }
            }
        }
        Ok(obj)
    }

    /// Expands a leading `~` in `path` to the current user's home
    /// directory, when one is known; any other path is returned unchanged.
    pub fn expand_path(&self, path: &str) -> (r: String)
        ensures
            exists|home: Option<Seq<char>>| r@ == spec_expand_home(path@, home),
    {
        crate::utils::expand_path(path)
    }

    /// Retrieves a registered cache object by name; fails with `NotFound`
    /// exactly when no entry carries the name.
    pub fn get(&self, name: &str) -> (r: CacheResult<CacheObject>)
        ensures
            match r {
                Ok(o) => spec_lookup(self.registry(), name@) == Option::Some(o@),
                Err(e) => spec_lookup(self.registry(), name@) is None && e
                    matches CacheError::NotFound(_),
            },
    {
        match self.find_index(name) {
            Some(i) => Ok(self.objects[i].clone()),
            None => Err(
                CacheError::NotFound(
                    String::from_str("Cache object '").concat(name).concat("' not found"),
                ),
            ),
        }
    }

    /// Returns the number of registered cache objects.
    pub fn len(&self) -> (r: usize)
        ensures
            r == self.registry().len(),
    {
        self.objects.len()
    }

    /// Whether no cache object is registered.
    pub fn is_empty(&self) -> (r: bool)
        ensures
            r == (self.registry().len() == 0),
    {
        self.objects.is_empty()
    }

    /// Removes the registry entry named `name`, if one exists; never fails.
    ///
    /// Only the registry entry is removed here; deleting the backing file
    /// is a filesystem effect left to the embedding application, and its
    /// failure must not undo the removal.
    pub fn remove(&mut self, name: &str) -> (r: CacheResult<()>)
        requires
            old(self).wf(),
        ensures
            final(self).wf(),
            r matches Ok(_),
            final(self).registry() == spec_remove_name(old(self).registry(), name@),
            final(self).spec_next_id() == old(self).spec_next_id(),
            final(self).spec_config() == old(self).spec_config(),
    {
        let ghost old_reg = self.registry();
        match self.find_index(name) {
            Some(i) => {
                self.objects.remove(i);
                proof {
                    assert(self.registry() =~= old_reg.remove(i as int));
                    lemma_remove_present(old_reg, name@, i as int);
                }
            },
            None => {
                proof {
                    lemma_lookup_some_iff_exists(old_reg, name@);
                    lemma_remove_absent(old_reg, name@);
                }
            },
        }
        Ok(())
    }

    /// Removes every registry entry and reports how many were removed.
    ///
    /// This operation is kept for callers of the retired expiration
    /// feature; `Cache::clear` is its replacement.
    pub fn cleanup(&mut self) -> (r: CacheResult<u32>)
        requires
            old(self).wf(),
        ensures
            final(self).wf(),
            r matches Ok(c) && c == old(self).registry().len(),
            final(self).registry().len() == 0,
            final(self).spec_next_id() == old(self).spec_next_id(),
            final(self).spec_config() == old(self).spec_config(),
    {
        let count = self.objects.len() as u32;
        match self.clear() {
            Ok(_) => Ok(count),
            Err(e) => Err(e),
        }
    }

    /// Empties the registry; never fails, whatever has become of the
    /// backing files.
    ///
    /// Deleting the backing files is a filesystem effect left to the
    /// embedding application; the registry is left empty regardless of how
    /// those deletions fare.
    pub fn clear(&mut self) -> (r: CacheResult<()>)
        requires
            old(self).wf(),
        ensures
            final(self).wf(),
            r matches Ok(_),
            final(self).registry().len() == 0,
            final(self).spec_next_id() == old(self).spec_next_id(),
            final(self).spec_config() == old(self).spec_config(),
    {
        self.objects.clear();
        proof {
            assert(self.registry() =~= Seq::<ObjectView>::empty());
        }
        Ok(())
    }

    /// Replaces the manager's base configuration.
    pub fn set_config(&mut self, config: CacheConfig)
        ensures
            final(self).spec_config() == config@,
            final(self).registry() == old(self).registry(),
            final(self).spec_next_id() == old(self).spec_next_id(),
    {
        self.config = config;
    }

    /// Returns a copy of the manager's base configuration.
    pub fn get_config(&self) -> (r: CacheConfig)
        ensures
            r@ == self.spec_config(),
    {
        self.config.clone()
    }

    /// Returns a copy of every registered cache object.  The order matches
    /// the registry's insertion order, which callers should not rely on.
    pub fn iter(&self) -> (r: Vec<CacheObject>)
        ensures
            r@.map_values(|o: CacheObject| o@) == self.registry(),
    {
        let mut r: Vec<CacheObject> = Vec::new();
        let mut i: usize = 0;
        while i < self.objects.len()
            invariant
                i <= self.objects@.len(),
                r@.len() == i,
                forall|k: int| 0 <= k < i ==> r@[k]@ == self.objects@[k]@,
            decreases self.objects@.len() - i,
        {
            r.push(self.objects[i].clone());
            i = i + 1;
        }
        proof {
            assert(r@.map_values(|o: CacheObject| o@) =~= self.registry());
        }
        r
    }
}

/// Every id in a well-formed registry lies strictly below the id counter.
/// Since `Cache::create` issues exactly the counter's value and then bumps
/// it, and no operation ever lowers the counter, ids are issued strictly
/// increasing across a manager's lifetime - even after entries have been
/// removed, an id is never reused.
pub proof fn lemma_registered_ids_below_counter(c: &Cache, i: int)
    requires
        c.wf(),
        0 <= i < c.registry().len(),
    ensures
        c.registry()[i].id < c.spec_next_id(),
{
}

} // verus!


