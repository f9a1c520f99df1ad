//! The registry: built-in middlewares and external programs, by name.
use crate::middleware::builtin::logger::LoggerMiddleware;
use crate::middleware::builtin::metrics::MetricsMiddleware;
use crate::middleware::builtin::settings_view;
use crate::middleware::builtin::validator::ValidatorMiddleware;
use crate::middleware::external::{
    is_name_for,
    name_for_path,
    ExternalMiddleware,
    ExternalMiddlewareConfig,
};
use crate::middleware::{
    default_external_kind, lemma_default_external_view, MiddlewareInstance, MiddlewareKind,
    MiddlewareType,
};
use crate::strmap::StrMap;
use crate::text::{ascii_lowercase, eq_ascii_lowercase, join};
use vstd::prelude::*;
use vstd::string::*;

verus! {

/// A built-in middleware that the registry can create.
#[derive(Clone, Copy, Debug, PartialEq, Eq, Structural)]
pub enum BuiltinKind {
    Logger,
    Validator,
    Metrics,
}

impl View for BuiltinKind {
    type V = BuiltinKind;

    open spec fn view(&self) -> BuiltinKind {
        *self
    }
}

impl BuiltinKind {
    /// The middleware this creates with the given settings.
    pub open spec fn kind_with(self, settings: Option<Map<Seq<char>, Seq<char>>>) -> MiddlewareKind {
        match self {
            BuiltinKind::Logger => MiddlewareKind::Logger(settings),
            BuiltinKind::Validator => MiddlewareKind::Validator(settings),
            BuiltinKind::Metrics => MiddlewareKind::Metrics(settings),
        }
    }

    /// The middleware this creates without settings.
    pub open spec fn kind(self) -> MiddlewareKind {
        self.kind_with(None)
    }

    /// A new middleware of this kind, with the given settings.
    pub fn create(&self, config: Option<StrMap<String>>) -> (m: MiddlewareInstance)
        ensures
            m@ == self.kind_with(settings_view(config)),
    {
        match self {
            BuiltinKind::Logger => MiddlewareInstance::Logger(LoggerMiddleware::new().create(config)),
            BuiltinKind::Validator => MiddlewareInstance::Validator(
                ValidatorMiddleware::new().create(config),
            ),
            BuiltinKind::Metrics => MiddlewareInstance::Metrics(
                MetricsMiddleware::new().create(config),
            ),
        }
    }
}


/// The programs registered from a list of (name, path) pairs, later pairs
/// replacing earlier ones of the same name.
pub open spec fn named_paths(pairs: Seq<(Seq<char>, Seq<char>)>) -> Map<Seq<char>, Seq<char>>
    decreases pairs.len(),
{
    if pairs.len() == 0 {
        Map::empty()
    } else {
        named_paths(pairs.drop_last()).insert(pairs.last().0, pairs.last().1)
    }
}

/// The map holding exactly the three built-in middlewares.
pub open spec fn standard_builtins() -> Map<Seq<char>, BuiltinKind> {
    Map::empty().insert("logger"@, BuiltinKind::Logger).insert(
        "validator"@,
        BuiltinKind::Validator,
    ).insert("metrics"@, BuiltinKind::Metrics)
}

/// On Unix: a file is run as a middleware when its permission mode can be
/// read and has an execute bit set.
pub fn is_executable_mode(mode: Option<u32>) -> (r: bool)
    ensures
        r == match mode {
            Some(m) => m & 0o111u32 != 0,
            None => false,
        },
{
    match mode {
        Some(m) => m & 0o111u32 != 0,
        None => false,
    }
}

/// An extension that marks a program on Windows, in any letter case.
pub open spec fn is_program_extension(ext: Seq<char>) -> bool {
    let lower = ascii_lowercase(ext);
    lower == "exe"@ || lower == "bat"@ || lower == "cmd"@ || lower == "ps1"@
}

/// The Windows program extensions are exactly `exe`, `bat`, `cmd` and `ps1`,
/// each in any letter case: an extension is one when, with its letters A-Z
/// put in lower case, it reads as one of those four words.
pub proof fn lemma_program_extensions(ext: Seq<char>)
    ensures
        is_program_extension(ext) <==> (ascii_lowercase(ext) =~= seq!['e', 'x', 'e']
            || ascii_lowercase(ext) =~= seq!['b', 'a', 't'] || ascii_lowercase(ext) =~= seq![
            'c',
            'm',
            'd',
        ] || ascii_lowercase(ext) =~= seq!['p', 's', '1']),
{
    reveal_strlit("exe");
    reveal_strlit("bat");
    reveal_strlit("cmd");
    reveal_strlit("ps1");
    assert("exe"@ =~= seq!['e', 'x', 'e']);
    assert("bat"@ =~= seq!['b', 'a', 't']);
    assert("cmd"@ =~= seq!['c', 'm', 'd']);
    assert("ps1"@ =~= seq!['p', 's', '1']);
}

/// On Windows: a file is run as a middleware when its extension is `exe`,
/// `bat`, `cmd` or `ps1` in any letter case.
pub fn is_executable_extension(ext: Option<&str>) -> (r: bool)
    ensures
        r == match ext {
            Some(e) => is_program_extension(e@),
            None => false,
        },
        ext matches Some(e) ==> (r <==> (ascii_lowercase(e@) =~= seq!['e', 'x', 'e'] || ascii_lowercase(e@) =~= seq!['b', 'a', 't']
            || ascii_lowercase(e@) =~= seq!['c', 'm', 'd'] || ascii_lowercase(e@) =~= seq!['p', 's', '1'])),
{
    proof {
        match ext {
            Some(e) => lemma_program_extensions(e@),
            None => {},
        }
    }
    match ext {
        Some(e) => eq_ascii_lowercase(e, "exe") || eq_ascii_lowercase(e, "bat")
            || eq_ascii_lowercase(e, "cmd") || eq_ascii_lowercase(e, "ps1"),
        None => false,
    }
}

/// Where the registry finds middlewares.
pub struct MiddlewareRegistry {
    builtin_middlewares: StrMap<BuiltinKind>,
    external_middlewares: StrMap<ExternalMiddlewareConfig>,
}

impl MiddlewareRegistry {
    /// The built-in middlewares, by name.
    pub closed spec fn builtins(&self) -> Map<Seq<char>, BuiltinKind> {
        self.builtin_middlewares@
    }

    /// The external programs, by name: the path of each.
    pub closed spec fn external_paths(&self) -> Map<Seq<char>, Seq<char>> {
        Map::new(
            |k: Seq<char>| self.external_middlewares@.contains_key(k),
            |k: Seq<char>| self.external_middlewares@[k].path@,
        )
    }

    /// The names of the built-in middlewares in the order they were registered.
    pub closed spec fn builtin_names(&self) -> Seq<Seq<char>> {
        self.builtin_middlewares.key_seq()
    }

    /// The names of the external programs in the order they were registered.
    pub closed spec fn external_names(&self) -> Seq<Seq<char>> {
        self.external_middlewares.key_seq()
    }

    /// A registry with nothing in it.
    pub fn new() -> (r: Self)
        ensures
            r.builtins() == Map::<Seq<char>, BuiltinKind>::empty(),
            r.external_paths() == Map::<Seq<char>, Seq<char>>::empty(),
            r.builtin_names() == Seq::<Seq<char>>::empty(),
            r.external_names() == Seq::<Seq<char>>::empty(),
    {
        let r = MiddlewareRegistry {
            builtin_middlewares: StrMap::new(),
            external_middlewares: StrMap::new(),
        };
        assert(r.external_paths() =~= Map::<Seq<char>, Seq<char>>::empty());
        r
    }

    /// Makes the logger, validator and metrics middlewares the built-in ones.
    pub fn register_builtin_middlewares(&mut self)
        ensures
            final(self).builtins() == standard_builtins(),
            final(self).external_paths() == old(self).external_paths(),
            final(self).external_names() == old(self).external_names(),
    {
        let mut builtin_map: StrMap<BuiltinKind> = StrMap::new();
        builtin_map.insert(String::from_str("logger"), BuiltinKind::Logger);
        builtin_map.insert(String::from_str("validator"), BuiltinKind::Validator);
        builtin_map.insert(String::from_str("metrics"), BuiltinKind::Metrics);
        self.builtin_middlewares = builtin_map;
        assert(final(self).external_paths() =~= old(self).external_paths());
    }

    /// Replaces the external programs with those given as (name, path)
    /// pairs, later pairs winning over earlier ones of the same name.
    pub fn register_external_named(&mut self, pairs: Vec<(String, String)>)
        ensures
            final(self).external_paths() == named_paths(
                pairs@.map_values(|p: (String, String)| (p.0@, p.1@)),
            ),
            final(self).builtins() == old(self).builtins(),
    {
        let mut external_map: StrMap<ExternalMiddlewareConfig> = StrMap::new();
        let n = pairs.len();
        let ghost views = pairs@.map_values(|p: (String, String)| (p.0@, p.1@));
        let mut i: usize = 0;
        while i < n
            invariant
                n == pairs@.len(),
                i <= n,
                views == pairs@.map_values(|p: (String, String)| (p.0@, p.1@)),
                Map::new(
                    |k: Seq<char>| external_map@.contains_key(k),
                    |k: Seq<char>| external_map@[k].path@,
                ) == named_paths(views.take(i as int)),
            decreases n - i,
        {
            let name = pairs[i].0.clone();
            let config = ExternalMiddlewareConfig::new(pairs[i].1.clone());
            let ghost before = external_map@;
            external_map.insert(name, config);
            proof {
                assert(views.take(i + 1).drop_last() =~= views.take(i as int));
                assert(Map::new(
                    |k: Seq<char>| external_map@.contains_key(k),
                    |k: Seq<char>| external_map@[k].path@,
                ) =~= named_paths(views.take(i + 1)));
            }
            i = i + 1;
        }
        assert(views.take(n as int) =~= views);
        self.external_middlewares = external_map;
    }

    /// Replaces the external programs with those at the given paths, each
    /// named by its file stem (or `unknown`); later paths win over earlier
    /// ones of the same name.
    pub fn register_external_middlewares(&mut self, paths: Vec<String>)
        ensures
            exists|names: Seq<Seq<char>>|
                #![trigger names.len()]
                {
                    &&& names.len() == paths@.len()
                    &&& forall|i: int| 0 <= i < names.len() ==> is_name_for(names[i], #[trigger] paths@[i]@)
                    &&& final(self).external_paths() == named_paths(
                        Seq::new(paths@.len(), |i: int| (names[i], paths@[i]@)),
                    )
                },
            final(self).builtins() == old(self).builtins(),
    {
        let mut pairs: Vec<(String, String)> = Vec::new();
        let ghost mut names: Seq<Seq<char>> = Seq::empty();
        let n = paths.len();
        let mut i: usize = 0;
        while i < n
            invariant
                n == paths@.len(),
                i <= n,
                pairs@.len() == i,
                names.len() == i,
                forall|j: int| 0 <= j < i ==> is_name_for(names[j], #[trigger] paths@[j]@),
                forall|j: int| 0 <= j < i ==> (#[trigger] pairs@[j]).0@ == names[j],
                forall|j: int| 0 <= j < i ==> (#[trigger] pairs@[j]).1@ == paths@[j]@,
            decreases n - i,
        {
            let name = name_for_path(paths[i].as_str());
            let path = paths[i].clone();
            proof {
                names = names.push(name@);
            }
            pairs.push((name, path));
            i = i + 1;
        }
        let ghost views = pairs@.map_values(|p: (String, String)| (p.0@, p.1@));
        assert(views =~= Seq::new(paths@.len(), |i: int| (names[i], paths@[i]@)));
        self.register_external_named(pairs);
    }

    /// Adds the program at `path` under its file stem (or `unknown`),
    /// replacing any program of that name.
    pub fn register_external_middleware(&mut self, path: String)
        ensures
            exists|name: Seq<char>|
                is_name_for(name, path@) && final(self).external_paths() == old(
                    self,
                ).external_paths().insert(name, path@),
            final(self).builtins() == old(self).builtins(),
    {
        let name = name_for_path(path.as_str());
        let ghost key = name@;
        let config = ExternalMiddlewareConfig::new(path);
        let ghost path_view = config.path@;
        self.external_middlewares.insert(name, config);
        assert(is_name_for(key, path_view));
        assert(final(self).external_paths() =~= old(self).external_paths().insert(key, path_view));
    }

    /// A new instance of the built-in middleware called `name`.
    pub fn get_builtin_middleware(&self, name: &str) -> (r: Option<MiddlewareInstance>)
        ensures
            r is Some == self.builtins().contains_key(name@),
            r matches Some(m) ==> m@ == self.builtins()[name@].kind(),
    {
        match self.builtin_middlewares.get(name) {
            Some(creator) => Some(creator.create(None)),
            None => None,
        }
    }

    /// A new instance of the external middleware called `name`, with default
    /// settings for its program.
    pub fn get_external_middleware(&self, name: &str) -> (r: Option<ExternalMiddleware>)
        ensures
            r is Some == self.external_paths().contains_key(name@),
            r matches Some(m) ==> m.spec_config().is_defaults_for(self.external_paths()[name@]),
            r matches Some(m) ==> is_name_for(m.spec_name(), self.external_paths()[name@]),
    {
        match self.external_middlewares.get(name) {
            Some(config) => Some(ExternalMiddleware::new(config.path.clone())),
            None => None,
        }
    }

    /// The middleware that `middleware_type` names: a built-in one by its
    /// name, an external one by the whole path as its name.
    pub fn get_middleware(&self, middleware_type: &MiddlewareType) -> (r: Option<MiddlewareInstance>)
        ensures
            match middleware_type {
                MiddlewareType::Builtin(name) => (r is Some == self.builtins().contains_key(name@))
                    && (r matches Some(m) ==> m@ == self.builtins()[name@].kind()),
                MiddlewareType::External(path) => (r is Some
                    == self.external_paths().contains_key(path@)) && (r matches Some(m) ==> (m@ matches MiddlewareKind::External { path: p, name: n, .. } && p
                    == self.external_paths()[path@] && is_name_for(n, p) && m@
                    == default_external_kind(p, n))),
            },
    {
        match middleware_type {
            MiddlewareType::Builtin(name) => self.get_builtin_middleware(name.as_str()),
            MiddlewareType::External(path) => match self.get_external_middleware(path.as_str()) {
                Some(m) => {
                    proof {
                        lemma_default_external_view(m, self.external_paths()[path@]);
                    }
                    Some(MiddlewareInstance::External(m))
                },
                None => None,
            },
        }
    }

    /// `builtin:` and the name of each built-in middleware, then
    /// `external:` and the name of each external one.
    pub fn get_middleware_names(&self) -> (r: Vec<String>)
        ensures
            r@.map_values(|s: String| s@) == self.builtin_names().map_values(
                |k: Seq<char>| "builtin:"@ + k,
            ) + self.external_names().map_values(|k: Seq<char>| "external:"@ + k),
            self.builtin_names().no_duplicates(),
            self.external_names().no_duplicates(),
            forall|k: Seq<char>| self.builtins().contains_key(k) <==> #[trigger] self.builtin_names().contains(k),
            forall|k: Seq<char>| self.external_paths().contains_key(k) <==> #[trigger] self.external_names().contains(k),
            r@.len() == self.builtins().dom().len() + self.external_paths().dom().len(),
    {
        let nb_keys = self.builtin_middlewares.len();
        let ne_keys = self.external_middlewares.len();
        proof {
            self.builtin_middlewares.lemma_key_seq();
            self.external_middlewares.lemma_key_seq();
            assert(self.external_paths().dom() =~= self.external_middlewares@.dom());
        }
        let mut names: Vec<String> = Vec::new();
        let builtin = self.builtin_middlewares.keys();
        let external = self.external_middlewares.keys();
        let ghost b = self.builtin_names().map_values(|k: Seq<char>| "builtin:"@ + k);
        let ghost e = self.external_names().map_values(|k: Seq<char>| "external:"@ + k);
        for i in 0..builtin.len()
            invariant
                builtin@.map_values(|s: String| s@) == self.builtin_names(),
                b == self.builtin_names().map_values(|k: Seq<char>| "builtin:"@ + k),
                names@.len() == i,
                forall|j: int| 0 <= j < i ==> #[trigger] names@[j]@ == b[j],
        {
            assert(builtin@.map_values(|s: String| s@)[i as int] == builtin@[i as int]@);
            names.push(join("builtin:", builtin[i].as_str()));
        }
        let nb = builtin.len();
        for i in 0..external.len()
            invariant
                nb == b.len(),
                external@.map_values(|s: String| s@) == self.external_names(),
                e == self.external_names().map_values(|k: Seq<char>| "external:"@ + k),
                names@.len() == nb + i,
                forall|j: int| 0 <= j < nb ==> #[trigger] names@[j]@ == b[j],
                forall|j: int| 0 <= j < i ==> #[trigger] names@[nb + j]@ == e[j],
        {
            assert(external@.map_values(|s: String| s@)[i as int] == external@[i as int]@);
            names.push(join("external:", external[i].as_str()));
        }
        assert forall|j: int| 0 <= j < names@.len() implies #[trigger] names@[j]@ == (b + e)[j] by {
            if j >= nb {
                assert(names@[nb + (j - nb)]@ == e[j - nb]);
            }
        }
        assert(names@.map_values(|s: String| s@) =~= b + e);
        names
    }
}

impl Default for MiddlewareRegistry {
    fn default() -> (r: Self)
        ensures
            r.builtins() == standard_builtins(),
            r.external_paths() == Map::<Seq<char>, Seq<char>>::empty(),
    {
        let mut r = MiddlewareRegistry::new();
        r.register_builtin_middlewares();
        r
    }
}

} // verus!
