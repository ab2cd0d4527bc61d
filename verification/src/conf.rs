//! The configuration file: a YAML document whose `audio-in` entry
//! selects the audio input.
use vstd::prelude::*;
use crate::audio::AudioParameters;
use yaml_rust::{ScanError, Yaml, YamlLoader};

verus! {

#[verifier::external_type_specification]
#[verifier::external_body]
pub struct ExYaml(Yaml);

#[verifier::external_type_specification]
#[verifier::external_body]
pub struct ExScanError(ScanError);

/// The documents that `YamlLoader::load_from_str` reads from a text,
/// or `None` where it reports a scan error.
pub uninterp spec fn yaml_documents(text: Seq<char>) -> Option<Seq<Yaml>>;

/// The string stored under `key` in a YAML document, as
/// `doc[key].as_str()` gives it; `None` where the document is no
/// mapping, has no such key, or holds no string there.
pub uninterp spec fn yaml_str_entry(doc: Yaml, key: Seq<char>) -> Option<Seq<char>>;

/// The longest configuration text, in characters, that is handed to
/// the YAML parser.  The parser builds nested block collections by
/// recursion without a depth limit (only flow collections are capped),
/// so a long enough text of nested `- ` entries would exhaust the
/// stack; this bound keeps the nesting to a few hundred levels.
pub const MAX_CONF_CHARS: usize = 1024;

/// Calls `yaml_rust::YamlLoader::load_from_str`, which scans and
/// parses all YAML documents of a text.  Its result depends on the
/// text alone and is named `yaml_documents`; the YAML grammar itself
/// is not stated.  Texts longer than `MAX_CONF_CHARS` are not handed
/// to it (see there).
#[verifier::external_body]
fn yaml_load(text: &str) -> (r: Result<Vec<Yaml>, ScanError>)
    requires
        text@.len() <= MAX_CONF_CHARS,
    ensures
        r is Ok <==> yaml_documents(text@) is Some,
        r matches Ok(docs) ==> yaml_documents(text@) == Some(docs@),
{
    YamlLoader::load_from_str(text)
}

/// Reads `doc[key].as_str()` from `yaml_rust`: the index operator
/// gives the value stored under the key of a mapping (a bad value
/// otherwise), and `as_str` gives it where it is a string.  The result
/// is named `yaml_str_entry`.
#[verifier::external_body]
fn yaml_get_str(doc: &Yaml, key: &str) -> (r: Option<String>)
    ensures
        r is Some <==> yaml_str_entry(*doc, key@) is Some,
        r matches Some(s) ==> yaml_str_entry(*doc, key@) == Some(s@),
{
    doc[key].as_str().map(|s| s.to_string())
}

/// Why a configuration could not be read.
#[derive(Clone, Copy, Debug, PartialEq, Eq, Structural)]
pub enum ConfError {
    /// The text is no valid YAML.
    Parse,
    /// The text holds no YAML document.
    NoDocument,
}

/// The program configuration.
pub struct Conf {
    pub audio_in: Option<AudioParameters>,
}

/// Whether `params` is the audio input that an `audio-in` entry
/// selects: `off` or no entry at all turn audio processing off,
/// `default` selects the default input, and any other value names the
/// jack port (`device:port`) to read from.
pub open spec fn selects_audio_in(params: Option<AudioParameters>, entry: Option<Seq<char>>) -> bool {
    match entry {
        None => params is None,
        Some(s) => if s == "off"@ {
            params is None
        } else if s == "default"@ {
            params == Some(AudioParameters::Cpal)
        } else {
            params matches Some(AudioParameters::Jack(port)) && port@ == s
        },
    }
}

/// The `audio-in` entry that a text gives: a scan error, no document,
/// or the entry of the first document (`None` where it has no string
/// there).
pub open spec fn audio_in_entry_of_text(text: Seq<char>) -> Result<Option<Seq<char>>, ConfError> {
    match yaml_documents(text) {
        None => Err(ConfError::Parse),
        Some(docs) => if docs.len() == 0 {
            Err(ConfError::NoDocument)
        } else {
            Ok(yaml_str_entry(docs[0], "audio-in"@))
        },
    }
}

/// The candidates for the configuration file, in the order in which
/// they are tried.
pub open spec fn config_paths_spec() -> Seq<Seq<char>> {
    seq!["conf.yaml"@, "/etc/lumi/conf.yaml"@]
}

impl Conf {
    /// The configuration for an `audio-in` entry (`None` where the
    /// file has none).
    pub fn from_audio_in(entry: Option<&str>) -> (c: Conf)
        ensures
            selects_audio_in(
                c.audio_in,
                match entry {
                    Some(s) => Some(s@),
                    None => None,
                },
            ),
    {
        let mut audio_params = None;
        match entry {
            Some(s) => {
                let s = s.to_owned();
                let off = "off".to_owned();
                let default = "default".to_owned();
                proof {
                    reveal_strlit("off");
                    reveal_strlit("default");
                    assert(off@ != default@) by {
                        assert(off@[0] != default@[0]);
                    }
                }
                if s == off {
                    audio_params = None;
                } else if s == default {
                    audio_params = Some(AudioParameters::Cpal);
                } else {
                    audio_params = Some(AudioParameters::Jack(s));
                }
            },
            None => {},
        }
        Conf { audio_in: audio_params }
    }

    /// Reads the configuration from the text of the configuration
    /// file, which holds at most `MAX_CONF_CHARS` characters.
    pub fn from_yaml_str(text: &str) -> (r: Result<Conf, ConfError>)
        requires
            text@.len() <= MAX_CONF_CHARS,
        ensures
            match audio_in_entry_of_text(text@) {
                Ok(entry) => r matches Ok(c) && selects_audio_in(c.audio_in, entry),
                Err(e) => r matches Err(e2) && e2 == e,
            },
    {
        let docs = match yaml_load(text) {
            Ok(docs) => docs,
            Err(_) => {
                return Err(ConfError::Parse);
            },
        };
        if docs.len() == 0 {
            return Err(ConfError::NoDocument);
        }
        let entry = yaml_get_str(&docs[0], "audio-in");
        match entry {
            Some(s) => Ok(Conf::from_audio_in(Some(s.as_str()))),
            None => Ok(Conf::from_audio_in(None)),
        }
    }

    /// The candidate paths of the configuration file.
    pub fn config_paths() -> (v: Vec<&'static str>)
        ensures
            v@.len() == config_paths_spec().len(),
            forall|i: int| 0 <= i < v@.len() ==> #[trigger] v@[i]@ == config_paths_spec()[i],
    {
        vec!["conf.yaml", "/etc/lumi/conf.yaml"]
    }

    /// Picks the configuration file: the first candidate that exists,
    /// given for each candidate of `config_paths` whether it exists.
    pub fn find_path(exists: &Vec<bool>) -> (r: Option<usize>)
        ensures
            match r {
                Some(i) => i < exists@.len() && exists@[i as int] && forall|j: int|
                    0 <= j < i ==> !#[trigger] exists@[j],
                None => forall|j: int| 0 <= j < exists@.len() ==> !#[trigger] exists@[j],
            },
    {
        let mut i: usize = 0;
        while i < exists.len()
            invariant
                0 <= i <= exists@.len(),
                forall|j: int| 0 <= j < i ==> !#[trigger] exists@[j],
            decreases exists@.len() - i,
        {
            if exists[i] {
                return Some(i);
            }
            i = i + 1;
        }
        None
    }
}

} // verus!
