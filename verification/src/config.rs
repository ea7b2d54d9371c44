//! The bot's configuration and how it is read from YAML text.

use vstd::prelude::*;

use crate::strutil::str_eq;

verus! {

/// The library's model of a parsed YAML node: exactly the shapes the
/// configuration reader inspects. Scalars other than strings are `Other`.
pub enum YamlValue {
    /// A string scalar.
    Text(String),
    /// A sequence of nodes.
    List(Vec<YamlValue>),
    /// A mapping, as key/value pairs in document order.
    Hash(Vec<(YamlValue, YamlValue)>),
    /// Any other node.
    Other,
}

/// An error raised while reading configuration text.
pub enum ConfigError {
    /// The text is not well-formed YAML.
    YamlSyntax,
}

/// The values the bot is configured with. Absent entries stay `None`.
pub struct HammerConfig {
    pub username: Option<String>,
    pub oauth: Option<String>,
    pub channel: Option<String>,
    pub owners: Option<Vec<String>>,
}

/// Spec-level image of [`HammerConfig`].
pub struct HammerConfigView {
    pub username: Option<Seq<char>>,
    pub oauth: Option<Seq<char>>,
    pub channel: Option<Seq<char>>,
    pub owners: Option<Seq<Seq<char>>>,
}

impl DeepView for HammerConfig {
    type V = HammerConfigView;

    open spec fn deep_view(&self) -> HammerConfigView {
        HammerConfigView {
            username: self.username.deep_view(),
            oauth: self.oauth.deep_view(),
            channel: self.channel.deep_view(),
            owners: self.owners.deep_view(),
        }
    }
}

/// What reading a string-valued entry makes of a node.
pub open spec fn read_string_spec(token: YamlValue) -> Option<Seq<char>> {
    match token {
        YamlValue::Text(value) => Some(value@),
        _ => None,
    }
}

/// The string items of `items[i..]` appended to `acc`, non-strings skipped.
pub open spec fn owners_rec(items: Seq<YamlValue>, i: int, acc: Seq<Seq<char>>) -> Seq<Seq<char>>
    decreases items.len() - i,
{
    if i < 0 || i >= items.len() {
        acc
    } else {
        match items[i] {
            YamlValue::Text(name) => owners_rec(items, i + 1, acc.push(name@)),
            _ => owners_rec(items, i + 1, acc),
        }
    }
}

/// What reading the owner-list entry makes of a node: a single string is a
/// one-element list, a sequence keeps its string items, anything else fails.
pub open spec fn read_owner_list_spec(token: YamlValue) -> Option<Seq<Seq<char>>> {
    match token {
        YamlValue::Text(value) => Some(seq![value@]),
        YamlValue::List(items) => Some(owners_rec(items@, 0, Seq::empty())),
        _ => None,
    }
}

/// What one configuration entry does to the configuration.
pub open spec fn apply_entry_spec(
    cur: HammerConfigView,
    key: YamlValue,
    value: YamlValue,
) -> HammerConfigView {
    match key {
        YamlValue::Text(keyval) => {
            if keyval@ == "username"@ {
                HammerConfigView { username: read_string_spec(value), ..cur }
            } else if keyval@ == "oauth"@ {
                HammerConfigView { oauth: read_string_spec(value), ..cur }
            } else if keyval@ == "channel"@ {
                HammerConfigView { channel: read_string_spec(value), ..cur }
            } else if keyval@ == "owners"@ {
                HammerConfigView { owners: read_owner_list_spec(value), ..cur }
            } else {
                cur
            }
        },
        _ => cur,
    }
}

/// The entries `entries[j..]` of one document applied in order.
pub open spec fn fill_hash_rec(
    entries: Seq<(YamlValue, YamlValue)>,
    j: int,
    cur: HammerConfigView,
) -> HammerConfigView
    decreases entries.len() - j,
{
    if j < 0 || j >= entries.len() {
        cur
    } else {
        fill_hash_rec(entries, j + 1, apply_entry_spec(cur, entries[j].0, entries[j].1))
    }
}

/// The documents `docs[i..]` applied in order; a document that is not a
/// mapping is skipped.
pub open spec fn fill_docs_rec(
    docs: Seq<YamlValue>,
    i: int,
    cur: HammerConfigView,
) -> HammerConfigView
    decreases docs.len() - i,
{
    if i < 0 || i >= docs.len() {
        cur
    } else {
        match docs[i] {
            YamlValue::Hash(entries) => fill_docs_rec(docs, i + 1, fill_hash_rec(entries@, 0, cur)),
            _ => fill_docs_rec(docs, i + 1, cur),
        }
    }
}

/// What filling a configuration from parsed documents yields.
pub open spec fn fill_docs_spec(docs: Seq<YamlValue>, cur: HammerConfigView) -> HammerConfigView {
    fill_docs_rec(docs, 0, cur)
}

#[verifier::external_type_specification]
#[verifier::external_body]
pub struct ExYaml(yaml_rust::Yaml);

/// Relies on `yaml_rust::Yaml`: rewrites each variant of a parsed node into
/// the library's model of it, strings kept, sequences and mappings rewritten
/// item by item, every other node collapsed to `Other`.
#[verifier::external_body]
fn yaml_to_value(y: &yaml_rust::Yaml) -> YamlValue {
    match y {
        yaml_rust::Yaml::String(s) => YamlValue::Text(s.clone()),
        yaml_rust::Yaml::Array(items) => YamlValue::List(items.iter().map(yaml_to_value).collect()),
        yaml_rust::Yaml::Hash(entries) => YamlValue::Hash(
            entries.iter().map(|(k, v)| (yaml_to_value(k), yaml_to_value(v))).collect(),
        ),
        _ => YamlValue::Other,
    }
}

/// Relies on `yaml_rust::YamlLoader::load_from_str`: parses YAML text into a
/// list of documents; `None` when scanning fails.
#[verifier::external_body]
fn load_yaml_docs(source: &str) -> Option<Vec<YamlValue>> {
    match yaml_rust::YamlLoader::load_from_str(source) {
        Ok(docs) => Some(docs.iter().map(yaml_to_value).collect()),
        Err(_) => None,
    }
}

impl HammerConfig {
    /// An empty configuration.
    pub fn new() -> (r: HammerConfig)
        ensures
            r.username is None,
            r.oauth is None,
            r.channel is None,
            r.owners is None,
    {
        HammerConfig { username: None, oauth: None, channel: None, owners: None }
    }

    /// Whether the configuration names everything a session needs.
    pub fn validate(&self) -> (r: bool)
        ensures
            r == (self.username is Some && self.oauth is Some && self.channel is Some),
    {
        self.username.is_some() && self.oauth.is_some() && self.channel.is_some()
    }

    /// Reads a string-valued entry.
    fn read_string(token: &YamlValue) -> (r: Option<String>)
        ensures
            r.deep_view() == read_string_spec(*token),
    {
        match token {
            YamlValue::Text(value) => Some(value.clone()),
            _ => None,
        }
    }

    /// Reads the owner-list entry: one name, or a list of names with
    /// non-string items skipped.
    fn read_owner_list(token: &YamlValue) -> (r: Option<Vec<String>>)
        ensures
            match r {
                Some(names) => read_owner_list_spec(*token) == Some(names.deep_view()),
                None => read_owner_list_spec(*token) is None,
            },
    {
        match token {
            YamlValue::Text(value) => {
                let mut list: Vec<String> = Vec::new();
                list.push(value.clone());
                proof {
                    assert(list.deep_view() =~= seq![value@]);
                }
                Some(list)
            },
            YamlValue::List(items) => {
                let mut list: Vec<String> = Vec::new();
                proof {
                    assert(list.deep_view() =~= Seq::<Seq<char>>::empty());
                }
                let mut i: usize = 0;
                while i < items.len()
                    invariant
                        i <= items@.len(),
                        owners_rec(items@, i as int, list.deep_view()) == owners_rec(
                            items@,
                            0,
                            Seq::empty(),
                        ),
                    decreases items@.len() - i,
                {
                    match &items[i] {
                        YamlValue::Text(name) => {
                            let ghost old_deep = list.deep_view();
                            list.push(name.clone());
                            proof {
                                assert(list.deep_view() =~= old_deep.push(name@));
                            }
                        },
                        _ => {},
                    }
                    i += 1;
                }
                Some(list)
            },
            _ => None,
        }
    }

    /// Applies the entries of parsed documents to this configuration:
    /// `username`, `oauth` and `channel` take a string value, `owners` a
    /// name or a list of names; unknown keys, non-string keys and
    /// non-mapping documents are skipped.
    pub fn fill_from_yaml(&mut self, docs: &Vec<YamlValue>)
        ensures
            final(self).deep_view() == fill_docs_spec(docs@, old(self).deep_view()),
    {
        let mut i: usize = 0;
        while i < docs.len()
            invariant
                i <= docs@.len(),
                fill_docs_rec(docs@, i as int, self.deep_view()) == fill_docs_spec(
                    docs@,
                    old(self).deep_view(),
                ),
            decreases docs@.len() - i,
        {
            match &docs[i] {
                YamlValue::Hash(entries) => {
                    let ghost doc_start = self.deep_view();
                    let mut j: usize = 0;
                    while j < entries.len()
                        invariant
                            j <= entries@.len(),
                            fill_hash_rec(entries@, j as int, self.deep_view()) == fill_hash_rec(
                                entries@,
                                0,
                                doc_start,
                            ),
                        decreases entries@.len() - j,
                    {
                        let k = &entries[j].0;
                        let v = &entries[j].1;
                        match k {
                            YamlValue::Text(keyval) => {
                                let key = keyval.as_str();
                                if str_eq(key, "username") {
                                    self.username = HammerConfig::read_string(v);
                                } else if str_eq(key, "oauth") {
                                    self.oauth = HammerConfig::read_string(v);
                                } else if str_eq(key, "channel") {
                                    self.channel = HammerConfig::read_string(v);
                                } else if str_eq(key, "owners") {
                                    self.owners = HammerConfig::read_owner_list(v);
                                }
                            },
                            _ => {},
                        }
                        j += 1;
                    }
                },
                _ => {},
            }
            i += 1;
        }
    }

    /// Parses YAML text and applies its entries to this configuration. On a
    /// scan error the configuration is left unchanged.
    pub fn fill_from_string(&mut self, source: &str) -> (r: Result<(), ConfigError>)
        ensures
            r matches Err(e) ==> e is YamlSyntax && final(self).deep_view() == old(
                self,
            ).deep_view(),
            r matches Ok(_) ==> exists|docs: Seq<YamlValue>|
                final(self).deep_view() == fill_docs_spec(docs, old(self).deep_view()),
    {
        match load_yaml_docs(source) {
            Some(docs) => {
                self.fill_from_yaml(&docs);
                proof {
                    assert(self.deep_view() == fill_docs_spec(docs@, old(self).deep_view()));
                }
                Ok(())
            },
            None => Err(ConfigError::YamlSyntax),
        }
    }
}

} // verus!
