//! The settings of the application, their defaults, and where its files
//! live.

use vstd::prelude::*;
use crate::text::{chars_of, push_char};
use vstd::utf8::encode_utf8;

verus! {

/// All settings.
#[derive(Clone, Debug)]
pub struct Config {
    pub server: ServerConfig,
    pub ai: AiConfig,
    pub learning: LearningConfig,
    pub storage: StorageConfig,
}

/// Where the web server listens.
#[derive(Clone, Debug)]
pub struct ServerConfig {
    pub port: u16,
    pub host: String,
}

/// Which AI service to ask, and how.
#[derive(Clone, Debug)]
pub struct AiConfig {
    pub provider: String,
    pub api_key: String,
    pub model: String,
    pub base_url: String,
}

/// How much to learn and review each day.
#[derive(Clone, Debug)]
pub struct LearningConfig {
    pub daily_new_words: i32,
    pub daily_review_limit: i32,
    pub default_deck: String,
}

/// Where the database, the notes and the prompt templates are kept.
#[derive(Clone, Debug)]
pub struct StorageConfig {
    pub db_path: String,
    pub docs_path: String,
    pub prompts_path: String,
}

/// The default server settings: `127.0.0.1`, port 3000.
pub open spec fn server_default(s: ServerConfig) -> bool {
    s.port == 3000 && s.host@ == "127.0.0.1"@
}

/// The default AI settings: provider `kimi`, everything else empty.
pub open spec fn ai_default(a: AiConfig) -> bool {
    &&& a.provider@ == "kimi"@
    &&& a.api_key@ == Seq::<char>::empty()
    &&& a.model@ == Seq::<char>::empty()
    &&& a.base_url@ == Seq::<char>::empty()
}

/// The default learning settings: 20 new words and 100 reviews a day, deck
/// `01_vocab`.
pub open spec fn learning_default(l: LearningConfig) -> bool {
    l.daily_new_words == 20 && l.daily_review_limit == 100 && l.default_deck@ == "01_vocab"@
}

/// The default storage settings.
pub open spec fn storage_default(s: StorageConfig) -> bool {
    &&& s.db_path@ == "~/.engai/engai.db"@
    &&& s.docs_path@ == "./docs"@
    &&& s.prompts_path@ == "./prompts"@
}

/// The prompt directory used where the settings name none.
pub fn default_prompts_path() -> (r: String)
    ensures
        r@ == "./prompts"@,
{
    String::from_str("./prompts")
}

impl Default for ServerConfig {
    fn default() -> (r: ServerConfig)
        ensures
            server_default(r),
    {
        ServerConfig { port: 3000, host: String::from_str("127.0.0.1") }
    }
}

impl Default for AiConfig {
    fn default() -> (r: AiConfig)
        ensures
            ai_default(r),
    {
        AiConfig {
            provider: String::from_str("kimi"),
            api_key: String::new(),
            model: String::new(),
            base_url: String::new(),
        }
    }
}

impl Default for LearningConfig {
    fn default() -> (r: LearningConfig)
        ensures
            learning_default(r),
    {
        LearningConfig {
            daily_new_words: 20,
            daily_review_limit: 100,
            default_deck: String::from_str("01_vocab"),
        }
    }
}

impl Default for StorageConfig {
    fn default() -> (r: StorageConfig)
        ensures
            storage_default(r),
    {
        StorageConfig {
            db_path: String::from_str("~/.engai/engai.db"),
            docs_path: String::from_str("./docs"),
            prompts_path: default_prompts_path(),
        }
    }
}

impl Default for Config {
    fn default() -> (r: Config)
        ensures
            server_default(r.server),
            ai_default(r.ai),
            learning_default(r.learning),
            storage_default(r.storage),
    {
        Config {
            server: ServerConfig::default(),
            ai: AiConfig::default(),
            learning: LearningConfig::default(),
            storage: StorageConfig::default(),
        }
    }
}

/// `part` joined to the text path `base` as `Path::join` does on Unix: an
/// absolute `part` replaces `base`; otherwise one `/` goes between them,
/// unless `base` is empty or already ends with one.
pub open spec fn joined_text(base: Seq<char>, part: Seq<char>) -> Seq<char> {
    if part.len() > 0 && part[0] == '/' {
        part
    } else if base.len() == 0 || base.last() == '/' {
        base + part
    } else {
        base + seq!['/'] + part
    }
}

/// Joins `part` to the text path `base`.
pub fn join_text(base: &str, part: &str) -> (r: String)
    ensures
        r@ == joined_text(base@, part@),
{
    let p = chars_of(part);
    if p.len() > 0 && p[0] == '/' {
        return String::from_str(part);
    }
    let b = chars_of(base);
    let mut r = String::from_str(base);
    if b.len() > 0 && b[b.len() - 1] != '/' {
        push_char(&mut r, '/');
    }
    r.append(part);
    r
}

/// The byte `/`, which separates the parts of a path.
pub open spec fn slash() -> u8 {
    0x2f
}

/// The bytes `part` joined to the path `base` as `Path::join` does on Unix,
/// where a path is a sequence of bytes: an absolute `part` replaces `base`;
/// otherwise one `/` goes between them, unless `base` is empty or already
/// ends with one.
pub open spec fn joined(base: Seq<u8>, part: Seq<u8>) -> Seq<u8> {
    if part.len() > 0 && part[0] == slash() {
        part
    } else if base.len() == 0 || base.last() == slash() {
        base + part
    } else {
        base + seq![slash()] + part
    }
}

/// The bytes of `s` as a new vector.
fn bytes_of(s: &[u8]) -> (r: Vec<u8>)
    ensures
        r@ == s@,
{
    let mut r: Vec<u8> = Vec::new();
    let mut i: usize = 0;
    while i < s.len()
        invariant
            i <= s.len(),
            r@ == s@.take(i as int),
        decreases s.len() - i,
    {
        r.push(s[i]);
        i += 1;
        assert(r@ =~= s@.take(i as int));
    }
    assert(s@.take(s.len() as int) =~= s@);
    r
}

/// Joins the bytes `part` to the path `base`.
pub fn join_path(base: &[u8], part: &[u8]) -> (r: Vec<u8>)
    ensures
        r@ == joined(base@, part@),
{
    if part.len() > 0 && part[0] == 0x2f {
        return bytes_of(part);
    }
    let mut r = bytes_of(base);
    if base.len() > 0 && base[base.len() - 1] != 0x2f {
        r.push(0x2f);
    }
    let mut i: usize = 0;
    let ghost start = r@;
    while i < part.len()
        invariant
            i <= part.len(),
            r@ == start + part@.take(i as int),
        decreases part.len() - i,
    {
        r.push(part[i]);
        i += 1;
        assert(r@ =~= start + part@.take(i as int));
    }
    assert(part@.take(part.len() as int) =~= part@);
    r
}

/// The bytes of an optional path.
pub open spec fn opt_bytes(o: Option<Vec<u8>>) -> Option<Seq<u8>> {
    match o {
        Some(v) => Some(v@),
        None => None,
    }
}

/// The path `path` (its UTF-8 bytes) with a leading `~/` read against the
/// home directory `home`; any other path, or any path where no home
/// directory is known, as it is.
pub open spec fn expanded(path: Seq<u8>, home: Option<Seq<u8>>) -> Seq<u8> {
    if path.len() >= 2 && path[0] == 0x7eu8 && path[1] == slash() {
        match home {
            Some(h) => joined(h, path.skip(2)),
            None => path,
        }
    } else {
        path
    }
}

/// The user's home directory (`dirs::home_dir`), as the bytes of the path.
/// It depends on the environment and the system's user records, so nothing
/// is claimed of it.
#[verifier::external_body]
fn home_dir() -> (r: Option<Vec<u8>>) {
    match dirs::home_dir() {
        Some(h) => Some(h.into_os_string().into_encoded_bytes()),
        None => None,
    }
}

/// `path` with a leading `~/` read against the home directory `home`.
pub fn expand_tilde_with(path: &str, home: Option<Vec<u8>>) -> (r: Vec<u8>)
    ensures
        r@ == expanded(encode_utf8(path@), opt_bytes(home)),
{
    let v = path.as_bytes();
    assert(v@ == encode_utf8(path@));
    if v.len() >= 2 && v[0] == 0x7e && v[1] == 0x2f {
        match home {
            Some(h) => {
                let rest = slice_from(v, 2);
                join_path(h.as_slice(), rest.as_slice())
            },
            None => bytes_of(v),
        }
    } else {
        bytes_of(v)
    }
}

/// The bytes of `s` from `from` on.
fn slice_from(s: &[u8], from: usize) -> (r: Vec<u8>)
    requires
        from <= s.len(),
    ensures
        r@ == s@.skip(from as int),
{
    let mut r: Vec<u8> = Vec::new();
    let mut i: usize = from;
    while i < s.len()
        invariant
            from <= i <= s.len(),
            r@ == s@.subrange(from as int, i as int),
        decreases s.len() - i,
    {
        r.push(s[i]);
        i += 1;
        assert(r@ =~= s@.subrange(from as int, i as int));
    }
    r
}

/// `path` with a leading `~/` read against the user's home directory, which
/// is looked up only for such a path.
pub fn expand_tilde(path: &str) -> (r: Vec<u8>)
    ensures
        exists|home: Option<Seq<u8>>| r@ == expanded(encode_utf8(path@), home),
        !(encode_utf8(path@).len() >= 2 && encode_utf8(path@)[0] == 0x7eu8 && encode_utf8(
            path@,
        )[1] == slash()) ==> r@ == encode_utf8(path@),
{
    let v = path.as_bytes();
    if v.len() >= 2 && v[0] == 0x7e && v[1] == 0x2f {
        let home = home_dir();
        let r = expand_tilde_with(path, home);
        assert(r@ == expanded(encode_utf8(path@), opt_bytes(home)));
        r
    } else {
        let r = bytes_of(v);
        assert(r@ == expanded(encode_utf8(path@), None));
        r
    }
}

impl Config {
    /// The settings directory under the home directory `home`.
    pub fn config_dir_in(home: &[u8]) -> (r: Vec<u8>)
        ensures
            r@ == joined(home@, encode_utf8(".engai"@)),
    {
        join_path(home, ".engai".as_bytes())
    }

    /// The settings file under the home directory `home`.
    pub fn config_file_path_in(home: &[u8]) -> (r: Vec<u8>)
        ensures
            r@ == joined(joined(home@, encode_utf8(".engai"@)), encode_utf8("config.toml"@)),
    {
        let dir = Self::config_dir_in(home);
        join_path(dir.as_slice(), "config.toml".as_bytes())
    }

    /// The settings directory, `.engai` under the user's home directory;
    /// `None` where no home directory can be found.
    pub fn config_dir() -> (r: Option<Vec<u8>>)
        ensures
            r matches Some(d) ==> exists|home: Seq<u8>| d@ == joined(home, encode_utf8(".engai"@)),
    {
        match home_dir() {
            Some(h) => Some(Self::config_dir_in(h.as_slice())),
            None => None,
        }
    }

    /// The settings file, `config.toml` in the settings directory; `None`
    /// where no home directory can be found.
    pub fn config_file_path() -> (r: Option<Vec<u8>>)
        ensures
            r matches Some(p) ==> exists|home: Seq<u8>|
                p@ == joined(joined(home, encode_utf8(".engai"@)), encode_utf8("config.toml"@)),
    {
        match home_dir() {
            Some(h) => Some(Self::config_file_path_in(h.as_slice())),
            None => None,
        }
    }

    /// Where the database is, with `~/` read against the home directory.
    pub fn db_path(&self) -> (r: Vec<u8>)
        ensures
            exists|home: Option<Seq<u8>>| r@ == expanded(encode_utf8(self.storage.db_path@), home),
    {
        expand_tilde(self.storage.db_path.as_str())
    }

    /// Where the notes are, with `~/` read against the home directory.
    pub fn docs_path(&self) -> (r: Vec<u8>)
        ensures
            exists|home: Option<Seq<u8>>| r@ == expanded(
                encode_utf8(self.storage.docs_path@),
                home,
            ),
    {
        expand_tilde(self.storage.docs_path.as_str())
    }

    /// Where the prompt templates are, with `~/` read against the home
    /// directory.
    pub fn prompts_path(&self) -> (r: Vec<u8>)
        ensures
            exists|home: Option<Seq<u8>>| r@ == expanded(
                encode_utf8(self.storage.prompts_path@),
                home,
            ),
    {
        expand_tilde(self.storage.prompts_path.as_str())
    }

    /// The AI key: the one in the settings, or where that is empty
    /// `env_key`, the value of `ENGAI_AI_API_KEY` if it is set, else empty.
    pub fn resolve_api_key(&self, env_key: Option<String>) -> (r: String)
        ensures
            r@ == (if self.ai.api_key@.len() > 0 {
                self.ai.api_key@
            } else {
                match env_key {
                    Some(k) => k@,
                    None => Seq::<char>::empty(),
                }
            }),
    {
        if !self.ai.api_key.as_str().is_empty() {
            return self.ai.api_key.clone();
        }
        match env_key {
            Some(k) => k,
            None => String::new(),
        }
    }
}

} // verus!
