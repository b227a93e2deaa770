//! The build configuration of a project: which changed paths trigger a
//! build, and where a finished build is published.

use vstd::prelude::*;
use crate::changeset::views;
use crate::config::ConfigError;
use crate::text::{decode_lossy, utf8_lossy};
use crate::toml_doc::{
    TomlTree,
    parse_document,
    toml_document,
    toml_tree,
    value_as_array,
    value_as_bool,
    value_as_str,
    value_is_table,
    value_get,
};

verus! {

/// Name of the build configuration file, which sits beside a project's plan.
pub const BUILD_CFG_FILENAME: &'static str = "builder.toml";

/// The channel that packages go to where the configuration names none.
pub const DEFAULT_CHANNEL: &'static str = "unstable";

/// The trigger pattern of a configuration that names none.
pub const DEFAULT_TRIGGER: &'static str = "./*";

/// A project's build configuration.
#[derive(Clone, Debug)]
pub struct BuildCfg {
    /// Path prefixes: a change under one of them triggers a build.
    pub triggers: Vec<String>,
    /// What to do with a finished build.
    pub publish: PublishCfg,
}

/// Where, and whether, a finished build is published.
#[derive(Clone, Debug)]
pub struct PublishCfg {
    pub channel: String,
    pub enabled: bool,
}

/// The content of a `BuildCfg`.
pub struct BuildCfgModel {
    pub triggers: Seq<Seq<char>>,
    pub channel: Seq<char>,
    pub enabled: bool,
}

impl View for BuildCfg {
    type V = BuildCfgModel;

    open spec fn view(&self) -> BuildCfgModel {
        BuildCfgModel {
            triggers: views(self.triggers@),
            channel: self.publish.channel@,
            enabled: self.publish.enabled,
        }
    }
}

/// The configuration of a project whose configuration file is absent.
pub open spec fn default_cfg() -> BuildCfgModel {
    BuildCfgModel { triggers: seq![DEFAULT_TRIGGER@], channel: DEFAULT_CHANNEL@, enabled: true }
}

/// Whether every item is a string.
pub open spec fn all_text(items: Seq<TomlTree>) -> bool {
    forall|i: int| 0 <= i < items.len() ==> #[trigger] items[i] is Text
}

/// The strings of a list of string items.
pub open spec fn texts(items: Seq<TomlTree>) -> Seq<Seq<char>> {
    items.map_values(|t: TomlTree| t->Text_0)
}

/// The trigger list of a document: the default where the key is absent, the
/// strings of an array of strings, and nothing for any other value.
pub open spec fn decode_triggers(m: Map<Seq<char>, TomlTree>) -> Option<Seq<Seq<char>>> {
    if !m.contains_key("triggers"@) {
        Some(seq![DEFAULT_TRIGGER@])
    } else {
        match m["triggers"@] {
            TomlTree::List(items) => if all_text(items) {
                Some(texts(items))
            } else {
                None
            },
            _ => None,
        }
    }
}

/// The channel of a `publish` table: the default where absent.
pub open spec fn decode_channel(p: Map<Seq<char>, TomlTree>) -> Option<Seq<char>> {
    if !p.contains_key("channel"@) {
        Some(DEFAULT_CHANNEL@)
    } else {
        match p["channel"@] {
            TomlTree::Text(s) => Some(s),
            _ => None,
        }
    }
}

/// The `enabled` flag of a `publish` table: on where absent.
pub open spec fn decode_enabled(p: Map<Seq<char>, TomlTree>) -> Option<bool> {
    if !p.contains_key("enabled"@) {
        Some(true)
    } else {
        match p["enabled"@] {
            TomlTree::Flag(b) => Some(b),
            _ => None,
        }
    }
}

/// The publish settings of a document: the defaults where the `publish`
/// table is absent, and nothing where it or one of its fields is malformed.
pub open spec fn decode_publish(m: Map<Seq<char>, TomlTree>) -> Option<(Seq<char>, bool)> {
    if !m.contains_key("publish"@) {
        Some((DEFAULT_CHANNEL@, true))
    } else {
        match m["publish"@] {
            TomlTree::Table(p) => if decode_channel(p) is Some && decode_enabled(p) is Some {
                Some((decode_channel(p)->0, decode_enabled(p)->0))
            } else {
                None
            },
            _ => None,
        }
    }
}

/// The configuration that a parsed document describes: a text that is not a
/// document is a parse error, a document with a malformed field a decode
/// error, and each absent field takes its default.
pub open spec fn decode_build_cfg(doc: Option<TomlTree>) -> Result<BuildCfgModel, ConfigError> {
    match doc {
        None => Err(ConfigError::ParseError),
        Some(TomlTree::Table(m)) => match (decode_triggers(m), decode_publish(m)) {
            (Some(triggers), Some((channel, enabled))) => Ok(
                BuildCfgModel { triggers, channel, enabled },
            ),
            _ => Err(ConfigError::DecodeError),
        },
        Some(_) => Err(ConfigError::DecodeError),
    }
}

/// The configuration that a text describes.
pub open spec fn build_cfg_of_text(raw: Seq<char>) -> Result<BuildCfgModel, ConfigError> {
    decode_build_cfg(toml_document(raw))
}

/// `r` holds the configuration `m`, or the error `m` holds.
pub open spec fn cfg_result_is(
    r: Result<BuildCfg, ConfigError>,
    m: Result<BuildCfgModel, ConfigError>,
) -> bool {
    match r {
        Ok(c) => m == Ok::<BuildCfgModel, ConfigError>(c@),
        Err(e) => m == Err::<BuildCfgModel, ConfigError>(e),
    }
}

impl Default for PublishCfg {
    fn default() -> (r: Self)
        ensures
            r.channel@ == DEFAULT_CHANNEL@,
            r.enabled,
    {
        PublishCfg { channel: DEFAULT_CHANNEL.to_owned(), enabled: true }
    }
}

impl Default for BuildCfg {
    fn default() -> (r: Self)
        ensures
            r@ == default_cfg(),
    {
        let triggers = vec![DEFAULT_TRIGGER.to_owned()];
        let r = BuildCfg { triggers, publish: PublishCfg::default() };
        assert(views(r.triggers@) =~= seq![DEFAULT_TRIGGER@]);
        r
    }
}

/// The trigger list of a parsed document, as `decode_triggers` describes it.
fn read_triggers(doc: &toml::Value) -> (r: Option<Vec<String>>)
    requires
        toml_tree(*doc) is Table,
    ensures
        match r {
            Some(v) => decode_triggers(toml_tree(*doc)->Table_0) == Some(views(v@)),
            None => decode_triggers(toml_tree(*doc)->Table_0) is None,
        },
{
    let entry = match value_get(doc, "triggers") {
        None => {
            let v = vec![DEFAULT_TRIGGER.to_owned()];
            assert(views(v@) =~= seq![DEFAULT_TRIGGER@]);
            return Some(v);
        },
        Some(e) => e,
    };
    let items = match value_as_array(entry) {
        None => return None,
        Some(items) => items,
    };
    let ghost model = toml_tree(*entry)->List_0;
    let mut out: Vec<String> = Vec::new();
    let mut i: usize = 0;
    while i < items.len()
        invariant
            i <= items@.len(),
            items@.len() == model.len(),
            toml_tree(*doc) is Table,
            toml_tree(*doc)->Table_0.contains_key("triggers"@),
            toml_tree(*doc)->Table_0["triggers"@] == TomlTree::List(model),
            forall|k: int| 0 <= k < items@.len() ==> toml_tree(#[trigger] items@[k]) == model[k],
            forall|k: int| 0 <= k < i ==> #[trigger] model[k] is Text,
            views(out@) =~= texts(model.subrange(0, i as int)),
        decreases items@.len() - i,
    {
        assert(toml_tree(items@[i as int]) == model[i as int]);
        match value_as_str(&items[i]) {
            None => {
                assert(!(model[i as int] is Text));
                assert(!all_text(model));
                return None;
            },
            Some(s) => {
                let owned = s.to_owned();
                assert(model[i as int] == TomlTree::Text(owned@));
                let ghost before = views(out@);
                out.push(owned);
                assert(views(out@) =~= before.push(owned@));
                assert(texts(model.subrange(0, i + 1)) =~= texts(model.subrange(0, i as int)).push(
                    owned@,
                ));
            },
        }
        assert(views(out@) =~= texts(model.subrange(0, i + 1)));
        i = i + 1;
    }
    assert(model.subrange(0, i as int) =~= model);
    Some(out)
}

/// The publish settings of a parsed document, as `decode_publish` describes them.
fn read_publish(doc: &toml::Value) -> (r: Option<PublishCfg>)
    requires
        toml_tree(*doc) is Table,
    ensures
        match r {
            Some(p) => decode_publish(toml_tree(*doc)->Table_0) == Some((p.channel@, p.enabled)),
            None => decode_publish(toml_tree(*doc)->Table_0) is None,
        },
{
    let table = match value_get(doc, "publish") {
        None => return Some(PublishCfg::default()),
        Some(t) => t,
    };
    if !value_is_table(table) {
        return None;
    }
    let channel = match value_get(table, "channel") {
        None => DEFAULT_CHANNEL.to_owned(),
        Some(c) => match value_as_str(c) {
            None => return None,
            Some(s) => s.to_owned(),
        },
    };
    let enabled = match value_get(table, "enabled") {
        None => true,
        Some(e) => match value_as_bool(e) {
            None => return None,
            Some(b) => b,
        },
    };
    Some(PublishCfg { channel, enabled })
}

/// The configuration that some bytes describe, read as UTF-8 text.
pub open spec fn build_cfg_of_bytes(b: Seq<u8>) -> Result<BuildCfgModel, ConfigError> {
    build_cfg_of_text(utf8_lossy(b))
}

impl BuildCfg {
    /// Reads a configuration from the text of a configuration file.
    pub fn from_str(raw: &str) -> (r: Result<BuildCfg, ConfigError>)
        ensures
            cfg_result_is(r, build_cfg_of_text(raw@)),
    {
        let doc = match parse_document(raw) {
            None => return Err(ConfigError::ParseError),
            Some(doc) => doc,
        };
        let triggers = match read_triggers(&doc) {
            None => return Err(ConfigError::DecodeError),
            Some(t) => t,
        };
        let publish = match read_publish(&doc) {
            None => return Err(ConfigError::DecodeError),
            Some(p) => p,
        };
        Ok(BuildCfg { triggers, publish })
    }

    /// Reads a configuration from the bytes of a configuration file.
    pub fn from_bytes(bytes: &[u8]) -> (r: Result<BuildCfg, ConfigError>)
        ensures
            cfg_result_is(r, build_cfg_of_bytes(bytes@)),
    {
        let text = decode_lossy(bytes);
        BuildCfg::from_str(text.as_str())
    }
}

/// Reading the same bytes twice gives structurally equal configurations, or
/// the same error: the result depends on the bytes alone.
pub proof fn lemma_from_bytes_deterministic(
    b: Seq<u8>,
    r1: Result<BuildCfg, ConfigError>,
    r2: Result<BuildCfg, ConfigError>,
)
    requires
        cfg_result_is(r1, build_cfg_of_bytes(b)),
        cfg_result_is(r2, build_cfg_of_bytes(b)),
    ensures
        match (r1, r2) {
            (Ok(c1), Ok(c2)) => c1@ == c2@,
            (Err(e1), Err(e2)) => e1 == e2,
            _ => false,
        },
{
}

} // verus!
