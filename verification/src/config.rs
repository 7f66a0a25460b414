//! What a server is told when it starts.
use vstd::prelude::*;

use crate::errors::{quote, quoted};
use crate::json::{Json, Tree};
use crate::json_merge::{
    law_later_field_wins, law_missing_field_is_kept, law_null_field_is_kept, layer_trees, lookup,
    merge, merged, merged_all, runs_into_array, scalar, silent_on, Layer, MergeError,
};
use crate::network::secure::NetworkConfig;
use crate::network::{IpAddr, NetworkAddr, ReverseProxy};

verus! {

/// What every server can be told.
#[derive(Debug)]
pub struct RuntimeConfig {
    pub network: NetworkConfig,
    pub reverse_proxy: ReverseProxy,
    pub db: Option<String>,
    pub session_key_file: Option<String>,
}

impl Default for RuntimeConfig {
    fn default() -> (r: RuntimeConfig)
        ensures
            r.network.http is None,
            r.network.https_address == (NetworkAddr { ip: IpAddr::V4(0x7f00_0001), port: 443 }),
            r.network.certificates is None,
            r.reverse_proxy == ReverseProxy::NoProxy,
            r.db is None,
            r.session_key_file is None,
    {
        RuntimeConfig {
            network: NetworkConfig::default(),
            reverse_proxy: ReverseProxy::default(),
            db: None,
            session_key_file: None,
        }
    }
}

pub type ConfigOverride = RuntimeConfig;

/// What a server is told: what every server can be told, and what is particular to one.
#[derive(Debug)]
pub struct Config<S> {
    pub runtime: RuntimeConfig,
    pub user_defined: Option<S>,
}

impl<S> Default for Config<S> {
    fn default() -> (r: Config<S>)
        ensures
            call_ensures(RuntimeConfig::default, (), r.runtime),
            r.user_defined is None,
    {
        Config { runtime: RuntimeConfig::default(), user_defined: None }
    }
}

impl<S> Config<S> {
    /// What a server was told when it was built. It has no part in what is particular to the
    /// server.
    pub fn from_override(runtime: ConfigOverride) -> (r: Config<S>)
        ensures
            r == (Config { runtime, user_defined: None::<S> }),
    {
        Config { runtime, user_defined: None }
    }
}

/// What is decided when a server is built: what it is told, and everything else.
#[derive(Debug)]
pub struct Settings<R> {
    pub config_override: Option<ConfigOverride>,
    pub rest: R,
}

impl<R> Settings<R> {
    /// Takes out what the server is told, as a configuration, and leaves everything else.
    pub fn take_override<S>(&mut self) -> (r: Option<Config<S>>)
        ensures
            *final(self) == (Settings { config_override: None, rest: old(self).rest }),
            r == match old(self).config_override {
                Some(runtime) => Some(Config { runtime, user_defined: None::<S> }),
                None => None,
            },
    {
        match self.config_override.take() {
            Some(runtime) => Some(Config::from_override(runtime)),
            None => None,
        }
    }
}

/// The file that holds the configuration, if any does: the one that is named on the command
/// line, or in the environment of a server without a command line.
pub fn config_file(command_line: Option<Option<String>>, environment: Option<String>) -> (r: Option<
    String,
>)
    ensures
        r == match command_line {
            Some(named) => named,
            None => environment,
        },
{
    match command_line {
        Some(named) => named,
        None => environment,
    }
}

impl<S: Default> Config<S> {
    /// Takes apart what every server can be told and what is particular to one; the latter
    /// falls back to its default.
    pub fn into_parts(self) -> (r: (RuntimeConfig, S))
        ensures
            r.0 == self.runtime,
            match self.user_defined {
                Some(user_config) => r.1 == user_config,
                None => call_ensures(S::default, (), r.1),
            },
    {
        let user_config = match self.user_defined {
            Some(user_config) => user_config,
            None => S::default(),
        };
        (self.runtime, user_config)
    }
}

/// The sentence that reports that a configuration file could not be read.
pub fn read_failure(path: &str) -> (r: String)
    ensures
        r@ == "Failed to read config from "@ + quoted(path@),
{
    let mut text = "Failed to read config from ".to_owned();
    text.append(quote(path).as_str());
    text
}

/// A document with another one merged into it, if there is one.
pub open spec fn layered(below: Tree, layer: Option<Tree>) -> Tree {
    match layer {
        None => below,
        Some(other) => merged(below, other),
    }
}

/// The document of a configuration: the defaults, then the file, then the command line, then what
/// the server was told when it was built.
pub open spec fn configured(
    default: Tree,
    from_file: Option<Tree>,
    from_cli: Option<Tree>,
    from_compile_time: Option<Tree>,
) -> Tree {
    layered(layered(layered(default, from_file), from_cli), from_compile_time)
}

/// A configuration that may be absent or impossible to write down.
pub type Source = Option<Result<Json, String>>;

/// The document of a configuration, if there is one.
pub open spec fn source_tree(source: Source) -> Option<Tree> {
    match source {
        Some(Ok(json)) => Some(json@),
        _ => None,
    }
}

/// What loading a configuration reports: the first of its sources that cannot be written down.
pub open spec fn load_failure(
    default: Result<Json, String>,
    from_file: Source,
    from_cli: Source,
    from_compile_time: Source,
) -> Option<(Seq<char>, Seq<char>)> {
    match (default, from_file, from_cli, from_compile_time) {
        (Err(cause), _, _, _) => Some(("target"@, cause@)),
        (_, Some(Err(cause)), _, _) => Some(("from_file"@, cause@)),
        (_, _, Some(Err(cause)), _) => Some(("from_cli"@, cause@)),
        (_, _, _, Some(Err(cause))) => Some(("from_compile_time"@, cause@)),
        _ => None,
    }
}

/// Merges the sources of a configuration.
pub fn merge_config(
    default: Result<Json, String>,
    from_file: Source,
    from_cli: Source,
    from_compile_time: Source,
) -> (r: Result<Json, MergeError>)
    ensures
        match r {
            Ok(json) => {
                &&& load_failure(default, from_file, from_cli, from_compile_time) is None
                &&& default matches Ok(target)
                &&& json@ == configured(
                    target@,
                    source_tree(from_file),
                    source_tree(from_cli),
                    source_tree(from_compile_time),
                )
            },
            Err(error) => load_failure(default, from_file, from_cli, from_compile_time) == Some(
                (error.name@, error.cause@),
            ),
        },
{
    let layers: Vec<Layer> = vec![
        ("from_file", from_file),
        ("from_cli", from_cli),
        ("from_compile_time", from_compile_time),
    ];
    proof {
        let trees = layer_trees(layers@);
        let expected = seq![
            source_tree(from_file),
            source_tree(from_cli),
            source_tree(from_compile_time),
        ];
        assert(trees =~= expected);
        if default is Ok {
            let target = default->Ok_0@;
            assert(expected.drop_last().drop_last().drop_last() =~= Seq::<Option<Tree>>::empty());
            reveal_with_fuel(merged_all, 4);
            assert(merged_all(target, expected) == configured(
                target,
                source_tree(from_file),
                source_tree(from_cli),
                source_tree(from_compile_time),
            ));
        }
        assert(layers@[0].1 == from_file);
        assert(layers@[1].1 == from_cli);
        assert(layers@[2].1 == from_compile_time);
    }
    merge(default, layers)
}

/// Whether a source of a configuration decides nothing about a field: it is absent, it lacks the
/// field, or the field is `null`.
pub open spec fn undecided(source: Option<Tree>, path: Seq<Seq<char>>) -> bool {
    match source {
        None => true,
        Some(document) => silent_on(document, path) || lookup(document, path) == Some(Tree::Null),
    }
}

/// Whether a source of a configuration decides about a field.
pub open spec fn decides(source: Option<Tree>, path: Seq<Seq<char>>) -> bool {
    source matches Some(document) && lookup(document, path) matches Some(field) && scalar(field)
}

/// A layer that decides nothing about a field leaves it as it was.
proof fn lemma_undecided_layer(below: Tree, layer: Option<Tree>, path: Seq<Seq<char>>)
    requires
        undecided(layer, path),
        lookup(below, path) is Some,
    ensures
        lookup(layered(below, layer), path) == lookup(below, path),
{
    if layer is Some {
        let document = layer->0;
        if silent_on(document, path) {
            law_missing_field_is_kept(below, document, path);
        } else {
            law_null_field_is_kept(below, document, path);
        }
    }
}

/// What the server was told when it was built goes before everything else.
pub proof fn law_override_comes_first(
    default: Tree,
    from_file: Option<Tree>,
    from_cli: Option<Tree>,
    from_compile_time: Option<Tree>,
    path: Seq<Seq<char>>,
)
    requires
        decides(from_compile_time, path),
        !runs_into_array(layered(layered(default, from_file), from_cli), path),
    ensures
        lookup(configured(default, from_file, from_cli, from_compile_time), path) == lookup(
            from_compile_time->0,
            path,
        ),
{
    law_later_field_wins(
        layered(layered(default, from_file), from_cli),
        from_compile_time->0,
        path,
    );
}

/// What the server was told when it was built leaves all fields alone but the ones that every
/// server has.
pub proof fn law_override_leaves_other_fields(
    default: Tree,
    from_file: Option<Tree>,
    from_cli: Option<Tree>,
    from_compile_time: Tree,
    runtime_fields: Set<Seq<char>>,
    path: Seq<Seq<char>>,
)
    requires
        from_compile_time matches Tree::Object(members) && members.dom().subset_of(runtime_fields),
        path.len() > 0,
        !runtime_fields.contains(path[0]),
    ensures
        lookup(configured(default, from_file, from_cli, Some(from_compile_time)), path) == lookup(
            configured(default, from_file, from_cli, None),
            path,
        ),
{
    law_missing_field_is_kept(
        layered(layered(default, from_file), from_cli),
        from_compile_time,
        path,
    );
}

/// The command line goes before the file.
pub proof fn law_command_line_beats_file(
    default: Tree,
    from_file: Option<Tree>,
    from_cli: Option<Tree>,
    from_compile_time: Option<Tree>,
    path: Seq<Seq<char>>,
)
    requires
        decides(from_cli, path),
        undecided(from_compile_time, path),
        !runs_into_array(layered(default, from_file), path),
    ensures
        lookup(configured(default, from_file, from_cli, from_compile_time), path) == lookup(
            from_cli->0,
            path,
        ),
{
    let below = layered(default, from_file);
    law_later_field_wins(below, from_cli->0, path);
    lemma_undecided_layer(layered(below, from_cli), from_compile_time, path);
}

/// The file goes before the defaults.
pub proof fn law_file_beats_defaults(
    default: Tree,
    from_file: Option<Tree>,
    from_cli: Option<Tree>,
    from_compile_time: Option<Tree>,
    path: Seq<Seq<char>>,
)
    requires
        decides(from_file, path),
        undecided(from_cli, path),
        undecided(from_compile_time, path),
        !runs_into_array(default, path),
    ensures
        lookup(configured(default, from_file, from_cli, from_compile_time), path) == lookup(
            from_file->0,
            path,
        ),
{
    law_later_field_wins(default, from_file->0, path);
    let below = layered(default, from_file);
    lemma_undecided_layer(below, from_cli, path);
    lemma_undecided_layer(layered(below, from_cli), from_compile_time, path);
}

/// A field that no source decides about keeps its default.
pub proof fn law_default_is_kept(
    default: Tree,
    from_file: Option<Tree>,
    from_cli: Option<Tree>,
    from_compile_time: Option<Tree>,
    path: Seq<Seq<char>>,
)
    requires
        undecided(from_file, path),
        undecided(from_cli, path),
        undecided(from_compile_time, path),
        lookup(default, path) is Some,
    ensures
        lookup(configured(default, from_file, from_cli, from_compile_time), path) == lookup(
            default,
            path,
        ),
{
    lemma_undecided_layer(default, from_file, path);
    let below = layered(default, from_file);
    lemma_undecided_layer(below, from_cli, path);
    lemma_undecided_layer(layered(below, from_cli), from_compile_time, path);
}

/// The sources of a configuration are merged into the defaults in order: the file, the command
/// line, and what the server was told when it was built.
pub proof fn law_sources_are_merged_in_order(
    default: Tree,
    from_file: Option<Tree>,
    from_cli: Option<Tree>,
    from_compile_time: Option<Tree>,
)
    ensures
        configured(default, from_file, from_cli, from_compile_time) == merged_all(
            default,
            seq![from_file, from_cli, from_compile_time],
        ),
{
    let sources = seq![from_file, from_cli, from_compile_time];
    assert(sources.drop_last().drop_last().drop_last() =~= Seq::<Option<Tree>>::empty());
    reveal_with_fuel(merged_all, 4);
}

/// A configuration is loaded just where each of its sources can be written down. Otherwise the
/// first that cannot is named, in the order in which they are merged.
pub proof fn law_first_unwritable_source_is_named(
    default: Result<Json, String>,
    from_file: Source,
    from_cli: Source,
    from_compile_time: Source,
    r: Result<Json, MergeError>,
)
    requires
        call_ensures(merge_config, (default, from_file, from_cli, from_compile_time), r),
    ensures
        r is Ok <==> default is Ok && !(from_file matches Some(Err(_))) && !(
        from_cli matches Some(Err(_))) && !(from_compile_time matches Some(Err(_))),
        default matches Err(cause) ==> r->Err_0.name@ == "target"@ && r->Err_0.cause@ == cause@,
        default is Ok && (from_file matches Some(Err(_))) ==> r->Err_0.name@ == "from_file"@,
        default is Ok && !(from_file matches Some(Err(_))) && (from_cli matches Some(Err(_)))
            ==> r->Err_0.name@ == "from_cli"@,
        default is Ok && !(from_file matches Some(Err(_))) && !(from_cli matches Some(Err(_))) && (
        from_compile_time matches Some(Err(_))) ==> r->Err_0.name@ == "from_compile_time"@,
{
}

/// Where each source can be written down, the configuration is the document of the defaults with
/// the documents of the sources that are present merged into it in order.
pub proof fn law_written_sources_are_merged(
    default: Json,
    from_file: Json,
    from_cli: Json,
    from_compile_time: Json,
    r: Result<Json, MergeError>,
)
    requires
        call_ensures(
            merge_config,
            (Ok(default), Some(Ok(from_file)), Some(Ok(from_cli)), Some(Ok(from_compile_time))),
            r,
        ),
    ensures
        r matches Ok(json) && json@ == merged(
            merged(merged(default@, from_file@), from_cli@),
            from_compile_time@,
        ),
{
}

/// A source that is absent leaves the configuration to the others.
pub proof fn law_absent_sources_change_nothing(
    default: Tree,
    from_file: Option<Tree>,
    from_cli: Option<Tree>,
    from_compile_time: Option<Tree>,
)
    ensures
        configured(default, None, None, None) == default,
        configured(default, None, from_cli, from_compile_time) == layered(
            layered(default, from_cli),
            from_compile_time,
        ),
        configured(default, from_file, None, from_compile_time) == layered(
            layered(default, from_file),
            from_compile_time,
        ),
        configured(default, from_file, from_cli, None) == layered(
            layered(default, from_file),
            from_cli,
        ),
{
}

} // verus!
