//! Modes: how a request file is run, and the chain each mode runs with.
pub mod single;
pub mod workflow;

use crate::cli::Mode;
use crate::config::{is_chain_for, Config, MiddlewareConfig, MiddlewareType};
use crate::executor::base::{insert_by_order, lemma_insert_by_order, orders_sorted, BaseExecutor};
use crate::executor::mode::single::SingleMode;
use crate::executor::mode::workflow::WorkflowMode;
use crate::middleware::external::{is_name_for, name_for_path};
use crate::middleware::registry::{BuiltinKind, MiddlewareRegistry};
use crate::middleware::{
    default_external_kind, lemma_default_external_view, MiddlewareInstance, MiddlewareKind,
};
use crate::strmap::StrMap;
use vstd::prelude::*;

verus! {

/// What parsing a request file gives: its variables and its steps.
pub struct ModeParseResult {
    pub variables: StrMap<String>,
    pub step_list: Vec<ProtocolModel>,
}

/// One described request step.
pub struct ProtocolModel {
    id: String,
    name: String,
    description: String,
    version: String,
    author: String,
    protocol: Protocol,
    request: RequestModel,
}

/// The request of a step.
pub struct RequestModel {}

/// An HTTP request of a step.
pub struct HttpRequestModel {
    url: String,
    method: String,
    headers: StrMap<String>,
    body: String,
    query: StrMap<String>,
    path: StrMap<String>,
    params: StrMap<Param>,
}

/// A named, typed parameter.
pub struct Param {
    name: String,
    value: String,
    /// The parameter's type (`type` in the request file).
    param_type: ParamTypeEnum,
}

/// The type of a parameter.
#[derive(Clone, Copy, Debug, PartialEq, Eq, Structural)]
pub enum ParamTypeEnum {
    String,
    Integer,
    Number,
    Boolean,
    Binary,
    Byte,
    Array,
    Object,
}

/// The protocol of a step.
#[derive(Clone, Copy, Debug, PartialEq, Eq, Structural)]
pub enum Protocol {
    Http,
    Https,
    WebSocket,
    Ws,
    Wss,
    Tcp,
    Udp,
}

/// A mode ready to run, with its middleware chain.
pub enum ModeRunner {
    Single(SingleMode),
    Workflow(WorkflowMode),
}

/// The order of an entry that gives none.
pub const DEFAULT_ORDER: u32 = 100;

/// The chain entry an enabled chain item resolves to in a registry, if the
/// registry has its middleware. External items are looked up by `name.0`,
/// the name derived from their path, and the instance made is called
/// `name.1`.
pub open spec fn resolve_item(
    builtins: Map<Seq<char>, BuiltinKind>,
    externals: Map<Seq<char>, Seq<char>>,
    item: MiddlewareConfig,
    name: (Seq<char>, Seq<char>),
) -> Option<(MiddlewareKind, u32)> {
    let order = match item.order {
        Some(o) => o,
        None => DEFAULT_ORDER,
    };
    if !item.enabled {
        None
    } else {
        match item.middleware_type {
            MiddlewareType::Builtin(n) => if builtins.contains_key(n@) {
                Some((builtins[n@].kind(), order))
            } else {
                None
            },
            MiddlewareType::External(_) => if externals.contains_key(name.0) {
                Some((default_external_kind(externals[name.0], name.1), order))
            } else {
                None
            },
        }
    }
}

/// The chain made of the configured items, each added in turn when it
/// resolves.
pub open spec fn assembled_chain(
    builtins: Map<Seq<char>, BuiltinKind>,
    externals: Map<Seq<char>, Seq<char>>,
    items: Seq<MiddlewareConfig>,
    names: Seq<(Seq<char>, Seq<char>)>,
) -> Seq<(MiddlewareKind, u32)>
    decreases items.len(),
{
    if items.len() == 0 {
        Seq::empty()
    } else {
        let before = assembled_chain(builtins, externals, items.drop_last(), names.drop_last());
        match resolve_item(builtins, externals, items.last(), names.last()) {
            Some(e) => insert_by_order(before, e),
            None => before,
        }
    }
}

/// A chain assembled from configuration runs its middlewares in ascending
/// order, whatever order the items are configured in.
pub proof fn lemma_assembled_chain_sorted(
    builtins: Map<Seq<char>, BuiltinKind>,
    externals: Map<Seq<char>, Seq<char>>,
    items: Seq<MiddlewareConfig>,
    names: Seq<(Seq<char>, Seq<char>)>,
)
    ensures
        orders_sorted(assembled_chain(builtins, externals, items, names)),
    decreases items.len(),
{
    if items.len() > 0 {
        let before = assembled_chain(builtins, externals, items.drop_last(), names.drop_last());
        lemma_assembled_chain_sorted(builtins, externals, items.drop_last(), names.drop_last());
        match resolve_item(builtins, externals, items.last(), names.last()) {
            Some(e) => {
                lemma_insert_by_order(before, e);
            },
            None => {},
        }
    }
}

/// `x` is the chain entry of a configuration item whose middleware the
/// registry has, whether or not the item is enabled: its order is the item's
/// order, or 100 when it gives none; a built-in item gives the registry's
/// built-in middleware of its name; an external item gives the program the
/// registry holds under `name.0`, called `name.1`, with default settings.
pub open spec fn is_entry_of(
    builtins: Map<Seq<char>, BuiltinKind>,
    externals: Map<Seq<char>, Seq<char>>,
    item: MiddlewareConfig,
    name: (Seq<char>, Seq<char>),
    x: (MiddlewareKind, u32),
) -> bool {
    &&& x.1 == match item.order {
        Some(o) => o,
        None => 100u32,
    }
    &&& match item.middleware_type {
        MiddlewareType::Builtin(n) => builtins.contains_key(n@) && x.0 == builtins[n@].kind(),
        MiddlewareType::External(_) => externals.contains_key(name.0) && x.0
            == default_external_kind(externals[name.0], name.1),
    }
}

/// What an assembled chain holds: every entry comes from an enabled item
/// whose middleware the registry has, and every such item gives an entry; a
/// disabled item gives none, so items that are all disabled give the empty
/// chain; and there are never more entries than items.
pub proof fn lemma_assembled_chain_entries(
    builtins: Map<Seq<char>, BuiltinKind>,
    externals: Map<Seq<char>, Seq<char>>,
    items: Seq<MiddlewareConfig>,
    names: Seq<(Seq<char>, Seq<char>)>,
)
    requires
        names.len() == items.len(),
    ensures
        forall|x: (MiddlewareKind, u32)| #[trigger]
            assembled_chain(builtins, externals, items, names).contains(x) ==> exists|i: int|
                0 <= i < items.len() && items[i].enabled && #[trigger] is_entry_of(
                    builtins,
                    externals,
                    items[i],
                    names[i],
                    x,
                ),
        forall|i: int, x: (MiddlewareKind, u32)|
            0 <= i < items.len() && items[i].enabled && #[trigger] is_entry_of(
                builtins,
                externals,
                items[i],
                names[i],
                x,
            ) ==> assembled_chain(builtins, externals, items, names).contains(x),
        (forall|i: int| 0 <= i < items.len() ==> !(#[trigger] items[i]).enabled) ==> assembled_chain(
            builtins,
            externals,
            items,
            names,
        ).len() == 0,
        assembled_chain(builtins, externals, items, names).len() <= items.len(),
    decreases items.len(),
{
    broadcast use vstd::seq_lib::group_to_multiset_ensures;

    if items.len() > 0 {
        let pre = items.drop_last();
        let pnames = names.drop_last();
        let before = assembled_chain(builtins, externals, pre, pnames);
        let chain = assembled_chain(builtins, externals, items, names);
        let last = items.last();
        let n = items.len() - 1;
        lemma_assembled_chain_entries(builtins, externals, pre, pnames);
        lemma_assembled_chain_sorted(builtins, externals, pre, pnames);
        assert forall|i: int| 0 <= i < n implies pre[i] == items[i] && pnames[i] == names[i] by {}
        assert(last == items[n] && names.last() == names[n]);
        match resolve_item(builtins, externals, last, names.last()) {
            Some(e) => {
                lemma_insert_by_order(before, e);
                assert(chain == insert_by_order(before, e));
                assert(last.enabled && is_entry_of(builtins, externals, items[n], names[n], e));
                assert forall|x: (MiddlewareKind, u32)| #[trigger] chain.contains(x) implies exists|
                    i: int,
                | 0 <= i < items.len() && items[i].enabled && #[trigger] is_entry_of(
                    builtins,
                    externals,
                    items[i],
                    names[i],
                    x,
                ) by {
                    assert(chain.to_multiset().count(x) > 0);
                    if x != e {
                        assert(before.to_multiset().count(x) > 0);
                        assert(before.contains(x));
                        let i = choose|i: int|
                            0 <= i < pre.len() && pre[i].enabled && #[trigger] is_entry_of(
                                builtins,
                                externals,
                                pre[i],
                                pnames[i],
                                x,
                            );
                        assert(items[i] == pre[i] && names[i] == pnames[i]);
                    }
                }
                assert forall|i: int, x: (MiddlewareKind, u32)|
                    0 <= i < items.len() && items[i].enabled && #[trigger] is_entry_of(
                        builtins,
                        externals,
                        items[i],
                        names[i],
                        x,
                    ) implies chain.contains(x) by {
                    if i < n {
                        assert(pre[i] == items[i] && pnames[i] == names[i]);
                        assert(is_entry_of(builtins, externals, pre[i], pnames[i], x));
                        assert(before.contains(x));
                        assert(before.to_multiset().count(x) > 0);
                        assert(chain.to_multiset().count(x) > 0);
                    } else {
                        assert(x == e);
                        assert(chain.to_multiset().count(x) > 0);
                    }
                }
            },
            None => {
                assert(chain == before);
                assert forall|x: (MiddlewareKind, u32)| #[trigger] chain.contains(x) implies exists|
                    i: int,
                | 0 <= i < items.len() && items[i].enabled && #[trigger] is_entry_of(
                    builtins,
                    externals,
                    items[i],
                    names[i],
                    x,
                ) by {
                    let i = choose|i: int|
                        0 <= i < pre.len() && pre[i].enabled && #[trigger] is_entry_of(
                            builtins,
                            externals,
                            pre[i],
                            pnames[i],
                            x,
                        );
                    assert(items[i] == pre[i] && names[i] == pnames[i]);
                }
                assert forall|i: int, x: (MiddlewareKind, u32)|
                    0 <= i < items.len() && items[i].enabled && #[trigger] is_entry_of(
                        builtins,
                        externals,
                        items[i],
                        names[i],
                        x,
                    ) implies chain.contains(x) by {
                    if i < n {
                        assert(pre[i] == items[i] && pnames[i] == names[i]);
                        assert(is_entry_of(builtins, externals, pre[i], pnames[i], x));
                    } else {
                        assert(resolve_item(builtins, externals, last, names.last()) is Some);
                    }
                }
            },
        }
        if forall|i: int| 0 <= i < items.len() ==> !(#[trigger] items[i]).enabled {
            assert(!items[n].enabled);
            assert forall|i: int| 0 <= i < pre.len() implies !(#[trigger] pre[i]).enabled by {
                assert(pre[i] == items[i]);
            }
        }
    }
}

/// For an enabled external item: `name.0` is derived from the item's path,
/// and, when the registry has a program under that name, `name.1` is derived
/// from the program's path.
pub open spec fn name_fits(
    externals: Map<Seq<char>, Seq<char>>,
    item: MiddlewareConfig,
    name: (Seq<char>, Seq<char>),
) -> bool {
    item.enabled ==> match item.middleware_type {
        MiddlewareType::External(p) => is_name_for(name.0, p@) && (externals.contains_key(name.0)
            ==> is_name_for(name.1, externals[name.0])),
        MiddlewareType::Builtin(_) => true,
    }
}

/// `names` fits each item of `items` (see `name_fits`).
pub open spec fn names_fit(
    externals: Map<Seq<char>, Seq<char>>,
    items: Seq<MiddlewareConfig>,
    names: Seq<(Seq<char>, Seq<char>)>,
) -> bool {
    &&& names.len() == items.len()
    &&& forall|i: int| 0 <= i < items.len() ==> name_fits(externals, #[trigger] items[i], names[i])
}

/// The chain made of the configured items: each enabled item whose
/// middleware the registry has is added with its order (100 when it gives
/// none). External items are looked up by the file stem of their path.
pub fn assemble_chain(registry: &MiddlewareRegistry, items: &Vec<MiddlewareConfig>) -> (e: BaseExecutor)
    ensures
        exists|names: Seq<(Seq<char>, Seq<char>)>|
            names_fit(registry.external_paths(), items@, names) && e@ == assembled_chain(
                registry.builtins(),
                registry.external_paths(),
                items@,
                names,
            ),
        forall|x: (MiddlewareKind, u32)| #[trigger] e@.contains(x) ==> exists|i: int|
            0 <= i < items@.len() && (#[trigger] items@[i]).enabled && x.1 == match items@[i].order {
                Some(o) => o,
                None => 100u32,
            },
        (forall|i: int| 0 <= i < items@.len() ==> !(#[trigger] items@[i]).enabled) ==> e@.len() == 0,
        e@.len() <= items@.len(),
{
    let ghost builtins = registry.builtins();
    let ghost externals = registry.external_paths();
    let mut base_executor = BaseExecutor::new();
    let ghost mut names: Seq<(Seq<char>, Seq<char>)> = Seq::empty();
    let n = items.len();
    for i in 0..n
        invariant
            n == items@.len(),
            builtins == registry.builtins(),
            externals == registry.external_paths(),
            names_fit(externals, items@.take(i as int), names),
            base_executor@ == assembled_chain(builtins, externals, items@.take(i as int), names),
    {
        let item = &items[i];
        let order = match item.order {
            Some(o) => o,
            None => DEFAULT_ORDER,
        };
        let ghost prev = base_executor@;
        let ghost mut name: (Seq<char>, Seq<char>) = (Seq::empty(), Seq::empty());
        if item.enabled {
            match &item.middleware_type {
                MiddlewareType::Builtin(builtin_name) => {
                    match registry.get_builtin_middleware(builtin_name.as_str()) {
                        Some(m) => {
                            base_executor = base_executor.with_middleware(m, order);
                        },
                        None => {},
                    }
                },
                MiddlewareType::External(path) => {
                    let external_name = name_for_path(path.as_str());
                    proof {
                        name = (external_name@, Seq::empty());
                    }
                    match registry.get_external_middleware(
                        external_name.as_str(),
                    ) {
                        Some(m) => {
                            proof {
                                name = (external_name@, m.spec_name());
                                lemma_default_external_view(m, externals[external_name@]);
                            }
                            base_executor = base_executor.with_middleware(
                                MiddlewareInstance::External(m),
                                order,
                            );
                        },
                        None => {},
                    }
                },
            }
        }
        proof {
            let taken = items@.take(i + 1);
            let new_names = names.push(name);
            assert(taken.drop_last() =~= items@.take(i as int));
            assert(new_names.drop_last() =~= names);
            assert(taken.last() == items@[i as int]);
            assert(name_fits(externals, *item, name));
            assert forall|j: int| 0 <= j < taken.len() implies name_fits(externals, #[trigger] taken[j], new_names[j]) by {
                if j < i {
                    assert(taken[j] == items@.take(i as int)[j]);
                }
            }
            names = new_names;
        }
    }
    assert(items@.take(n as int) =~= items@);
    proof {
        lemma_assembled_chain_entries(builtins, externals, items@, names);
        assert forall|x: (MiddlewareKind, u32)| #[trigger] base_executor@.contains(x) implies exists|
            i: int,
        | 0 <= i < items@.len() && (#[trigger] items@[i]).enabled && x.1 == match items@[i].order {
            Some(o) => o,
            None => 100u32,
        } by {
            let i = choose|i: int|
                0 <= i < items@.len() && items@[i].enabled && #[trigger] is_entry_of(
                    builtins,
                    externals,
                    items@[i],
                    names[i],
                    x,
                );
            assert(items@[i].enabled);
        }
    }
    base_executor
}

/// Makes modes from a registry and a configuration.
pub struct ModeFactory {
    middleware_registry: MiddlewareRegistry,
    config: Config,
}

impl ModeFactory {
    /// The registry the factory draws middlewares from.
    pub closed spec fn registry(&self) -> MiddlewareRegistry {
        self.middleware_registry
    }

    /// The configuration the factory was made with.
    pub closed spec fn config(&self) -> Config {
        self.config
    }

    /// A factory over the given registry and configuration.
    pub fn new(middleware_registry: MiddlewareRegistry, config: Config) -> (f: Self)
        ensures
            f.registry() == middleware_registry,
            f.config() == config,
    {
        ModeFactory { middleware_registry, config }
    }

    /// The chain made of the configured items: each enabled item whose
    /// middleware the registry has is added with its order (100 when it gives
    /// none). External items are looked up by the file stem of their path.
    pub fn build_chain(&self, items: &Vec<MiddlewareConfig>) -> (e: BaseExecutor)
        ensures
            exists|names: Seq<(Seq<char>, Seq<char>)>|
                names_fit(self.registry().external_paths(), items@, names) && e@ == assembled_chain(
                    self.registry().builtins(),
                    self.registry().external_paths(),
                    items@,
                    names,
                ),
    {
        let e = assemble_chain(&self.middleware_registry, items);
        let ghost names = choose|names: Seq<(Seq<char>, Seq<char>)>|
            names_fit(self.middleware_registry.external_paths(), items@, names) && e@
                == assembled_chain(
                self.middleware_registry.builtins(),
                self.middleware_registry.external_paths(),
                items@,
                names,
            );
        assert(names_fit(self.registry().external_paths(), items@, names));
        e
    }

    /// The mode, with the chain configured under the mode's name (or the
    /// default chain for that name).
    pub fn create_mode(&self, mode: &Mode) -> (r: Result<ModeRunner, String>)
        ensures
            r is Ok,
            exists|items: Seq<MiddlewareConfig>, names: Seq<(Seq<char>, Seq<char>)>|
                {
                    &&& is_chain_for(self.config(), mode.spec_name(), items)
                    &&& names_fit(self.registry().external_paths(), items, names)
                    &&& match r {
                        Ok(ModeRunner::Single(m)) => *mode == Mode::Single && m.base()@
                            == assembled_chain(
                            self.registry().builtins(),
                            self.registry().external_paths(),
                            items,
                            names,
                        ),
                        Ok(ModeRunner::Workflow(m)) => *mode == Mode::Workflow && m.base()@
                            == assembled_chain(
                            self.registry().builtins(),
                            self.registry().external_paths(),
                            items,
                            names,
                        ),
                        Err(_) => false,
                    }
                },
    {
        let mode_name = mode.name();
        let middleware_chain = self.config.get_middleware_chain(mode_name.as_str());
        let base_executor = self.build_chain(&middleware_chain);
        match mode {
            Mode::Single => Ok(ModeRunner::Single(SingleMode::new(base_executor))),
            Mode::Workflow => Ok(ModeRunner::Workflow(WorkflowMode::new(base_executor))),
        }
    }
}

} // verus!
