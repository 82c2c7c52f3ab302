//! Configuration: where it is looked for, and how its sources combine.
use vstd::prelude::*;
use vstd::string::{StrSliceExecFns, StringExecFns};
use crate::slugs::opt_view;

verus! {

/// Settings as one source gives them; any may be absent.
pub struct ConfigLayer {
    pub supabase_url: Option<String>,
    pub supabase_service_key: Option<String>,
    pub bucket: Option<String>,
    pub table: Option<String>,
}

/// The settings an operation runs with.
pub struct ResolvedConfig {
    pub supabase_url: String,
    pub service_key: String,
    pub bucket: String,
    pub table: String,
}

#[derive(PartialEq, Eq, Structural, Clone, Copy, Debug)]
pub enum ConfigError {
    /// No source gives `supabase_url`.
    MissingSupabaseUrl,
    /// No source gives `supabase_service_key`.
    MissingServiceKey,
    /// Neither a per-user config directory nor a home directory is known.
    NoConfigHome,
    /// A config file already stands where a sample would be written.
    AlreadyExists,
}

/// The bucket used when no source names one.
pub open spec fn default_bucket() -> Seq<char> {
    "blog"@
}

/// The table used when no source names one.
pub open spec fn default_table() -> Seq<char> {
    "posts"@
}

/// The first of two optional values that is present.
pub open spec fn first_of(a: Option<Seq<char>>, b: Option<Seq<char>>) -> Option<Seq<char>> {
    match a {
        Some(x) => Some(x),
        None => b,
    }
}

/// A setting of the file layer, where there is a file.
pub open spec fn file_value(
    file: Option<ConfigLayer>,
    get: spec_fn(ConfigLayer) -> Option<String>,
) -> Option<Seq<char>> {
    match file {
        Some(f) => opt_view(get(f)),
        None => None,
    }
}

/// A setting as the file, then the environment, give it.
pub open spec fn layered(
    file: Option<ConfigLayer>,
    env: ConfigLayer,
    get: spec_fn(ConfigLayer) -> Option<String>,
) -> Option<Seq<char>> {
    first_of(file_value(file, get), opt_view(get(env)))
}

pub open spec fn url_of(c: ConfigLayer) -> Option<String> {
    c.supabase_url
}

pub open spec fn key_of(c: ConfigLayer) -> Option<String> {
    c.supabase_service_key
}

pub open spec fn bucket_of(c: ConfigLayer) -> Option<String> {
    c.bucket
}

pub open spec fn table_of(c: ConfigLayer) -> Option<String> {
    c.table
}

/// `o`'s value, or `d` where it has none.
pub open spec fn or_default(o: Option<Seq<char>>, d: Seq<char>) -> Seq<char> {
    match o {
        Some(x) => x,
        None => d,
    }
}

/// What resolving gives: each setting from the file, else the environment;
/// the URL and the key must come from one of them, the bucket and the table
/// fall back to their defaults.
pub open spec fn resolve_matches(
    r: Result<ResolvedConfig, ConfigError>,
    file: Option<ConfigLayer>,
    env: ConfigLayer,
) -> bool {
    let url = layered(file, env, |c: ConfigLayer| url_of(c));
    let key = layered(file, env, |c: ConfigLayer| key_of(c));
    if url is None {
        r == Err::<ResolvedConfig, ConfigError>(ConfigError::MissingSupabaseUrl)
    } else if key is None {
        r == Err::<ResolvedConfig, ConfigError>(ConfigError::MissingServiceKey)
    } else {
        r matches Ok(c) && c.supabase_url@ == url->Some_0 && c.service_key@ == key->Some_0
            && c.bucket@ == or_default(
            layered(file, env, |c: ConfigLayer| bucket_of(c)),
            default_bucket(),
        ) && c.table@ == or_default(
            layered(file, env, |c: ConfigLayer| table_of(c)),
            default_table(),
        )
    }
}

fn first_present(a: Option<String>, b: Option<String>) -> (r: Option<String>)
    ensures
        opt_view(r) == first_of(opt_view(a), opt_view(b)),
{
    match a {
        Some(x) => Some(x),
        None => b,
    }
}

/// Combines the settings of a config file, if one was found, with those of
/// the environment; the file's win.
pub fn resolve_config(file: Option<ConfigLayer>, env: ConfigLayer) -> (r: Result<
    ResolvedConfig,
    ConfigError,
>)
    ensures
        resolve_matches(r, file, env),
{
    let ghost f = file;
    let ghost e = env;
    let (fu, fk, fb, ft) = match file {
        Some(c) => (c.supabase_url, c.supabase_service_key, c.bucket, c.table),
        None => (None, None, None, None),
    };
    let url = first_present(fu, env.supabase_url);
    let key = first_present(fk, env.supabase_service_key);
    let bucket = first_present(fb, env.bucket);
    let table = first_present(ft, env.table);
    assert(opt_view(url) == layered(f, e, |c: ConfigLayer| url_of(c)));
    assert(opt_view(key) == layered(f, e, |c: ConfigLayer| key_of(c)));
    assert(opt_view(bucket) == layered(f, e, |c: ConfigLayer| bucket_of(c)));
    assert(opt_view(table) == layered(f, e, |c: ConfigLayer| table_of(c)));
    let supabase_url = match url {
        Some(u) => u,
        None => {
            return Err(ConfigError::MissingSupabaseUrl);
        },
    };
    let service_key = match key {
        Some(k) => k,
        None => {
            return Err(ConfigError::MissingServiceKey);
        },
    };
    let bucket = match bucket {
        Some(b) => b,
        None => String::from_str("blog"),
    };
    let table = match table {
        Some(t) => t,
        None => String::from_str("posts"),
    };
    Ok(ResolvedConfig { supabase_url, service_key, bucket, table })
}


/// Without a URL in the file or the environment, resolving fails with a
/// configuration error, whatever else is set.
pub proof fn lemma_missing_url_fails(
    r: Result<ResolvedConfig, ConfigError>,
    file: Option<ConfigLayer>,
    env: ConfigLayer,
)
    requires
        resolve_matches(r, file, env),
        file matches Some(f) ==> f.supabase_url is None,
        env.supabase_url is None,
    ensures
        r == Err::<ResolvedConfig, ConfigError>(ConfigError::MissingSupabaseUrl),
{
}

/// `rel` appended to the directory `base`, with one `/` between them.
pub open spec fn join_spec(base: Seq<char>, rel: Seq<char>) -> Seq<char> {
    if base.len() > 0 && base.last() != '/' {
        base + "/"@ + rel
    } else {
        base + rel
    }
}

/// The relative path `rel` under the directory `base`.
pub fn join_path(base: &str, rel: &str) -> (r: String)
    ensures
        r@ == join_spec(base@, rel@),
{
    let mut out = String::from_str(base);
    let n = base.unicode_len();
    if n > 0 && base.get_char(n - 1) != '/' {
        out.append("/");
    }
    out.append(rel);
    out
}

/// The config file's path under a per-user config directory.
pub open spec fn under_config_home(dir: Seq<char>) -> Seq<char> {
    join_spec(dir, "supamarker/config.toml"@)
}

/// The config file's path under a home directory.
pub open spec fn under_home(dir: Seq<char>) -> Seq<char> {
    join_spec(dir, ".config/supamarker/config.toml"@)
}

/// The per-user config path: under the config directory where one is set,
/// else under the home directory.
pub open spec fn user_path(config_home: Option<Seq<char>>, home: Option<Seq<char>>) -> Option<
    Seq<char>,
> {
    match config_home {
        Some(d) => Some(under_config_home(d)),
        None => match home {
            Some(h) => Some(under_home(h)),
            None => None,
        },
    }
}

fn user_config_path(config_home: &Option<String>, home: &Option<String>) -> (r: Option<String>)
    ensures
        opt_view(r) == user_path(opt_view(*config_home), opt_view(*home)),
{
    match config_home {
        Some(d) => Some(join_path(d.as_str(), "supamarker/config.toml")),
        None => match home {
            Some(h) => Some(join_path(h.as_str(), ".config/supamarker/config.toml")),
            None => None,
        },
    }
}

/// The paths where a config file is looked for, in order: the path given on
/// the command line alone, where there is one; else `config.toml` in the
/// working directory, then the per-user config path.
pub open spec fn candidates_spec(
    cli_path: Option<Seq<char>>,
    cwd: Option<Seq<char>>,
    config_home: Option<Seq<char>>,
    home: Option<Seq<char>>,
) -> Seq<Seq<char>> {
    match cli_path {
        Some(p) => seq![p],
        None => {
            let local = match cwd {
                Some(d) => seq![join_spec(d, "config.toml"@)],
                None => Seq::empty(),
            };
            match user_path(config_home, home) {
                Some(u) => local.push(u),
                None => local,
            }
        },
    }
}

pub fn candidate_config_paths(
    cli_path: Option<String>,
    cwd: Option<String>,
    config_home: Option<String>,
    home: Option<String>,
) -> (r: Vec<String>)
    ensures
        r@.map_values(|p: String| p@) == candidates_spec(
            opt_view(cli_path),
            opt_view(cwd),
            opt_view(config_home),
            opt_view(home),
        ),
{
    let mut paths: Vec<String> = Vec::new();
    match cli_path {
        Some(p) => {
            paths.push(p);
            assert(paths@.map_values(|p: String| p@) =~= seq![p@]);
            return paths;
        },
        None => {},
    }
    match &cwd {
        Some(d) => paths.push(join_path(d.as_str(), "config.toml")),
        None => {},
    }
    let ghost local = paths@.map_values(|p: String| p@);
    match user_config_path(&config_home, &home) {
        Some(u) => {
            paths.push(u);
            assert(paths@.map_values(|p: String| p@) =~= local.push(u@));
        },
        None => {},
    }
    assert(paths@.map_values(|p: String| p@) =~= candidates_spec(
        opt_view(cli_path),
        opt_view(cwd),
        opt_view(config_home),
        opt_view(home),
    ));
    paths
}

/// Where a sample config is written: the per-user config path.
pub fn default_config_path(config_home: Option<String>, home: Option<String>) -> (r: Result<
    String,
    ConfigError,
>)
    ensures
        match user_path(opt_view(config_home), opt_view(home)) {
            Some(p) => r matches Ok(s) && s@ == p,
            None => r == Err::<String, ConfigError>(ConfigError::NoConfigHome),
        },
{
    match user_config_path(&config_home, &home) {
        Some(p) => Ok(p),
        None => Err(ConfigError::NoConfigHome),
    }
}

/// The text of a sample config file.
pub open spec fn sample_spec() -> Seq<char> {
    "supabase_url = \"https://xxxxx.supabase.co\"\nsupabase_service_key = \"service_role_key\"\nbucket = \"blog\"\ntable = \"posts\"\n"@
}

/// What generating a sample config gives where a file stands or not: the
/// sample to write, or a refusal.
pub open spec fn gen_outcome(exists: bool) -> Result<Seq<char>, ConfigError> {
    if exists {
        Err(ConfigError::AlreadyExists)
    } else {
        Ok(sample_spec())
    }
}

/// The text to write as a sample config, unless a file already stands there.
pub fn plan_gen_config(target_exists: bool) -> (r: Result<String, ConfigError>)
    ensures
        match gen_outcome(target_exists) {
            Ok(t) => r matches Ok(s) && s@ == t,
            Err(e) => r == Err::<String, ConfigError>(e),
        },
{
    if target_exists {
        Err(ConfigError::AlreadyExists)
    } else {
        Ok(String::from_str(
            "supabase_url = \"https://xxxxx.supabase.co\"\nsupabase_service_key = \"service_role_key\"\nbucket = \"blog\"\ntable = \"posts\"\n",
        ))
    }
}

/// The file at the target path after generating: the sample where it was
/// written, else what stood there.
pub open spec fn file_after_gen(before: Option<Seq<char>>) -> Option<Seq<char>> {
    match gen_outcome(before is Some) {
        Ok(t) => Some(t),
        Err(_) => before,
    }
}

/// Generating twice: the second run is refused because the file now exists,
/// and leaves the file as the first run left it.
pub proof fn lemma_gen_config_twice(before: Option<Seq<char>>)
    ensures
        gen_outcome(file_after_gen(before) is Some) == Err::<Seq<char>, ConfigError>(
            ConfigError::AlreadyExists,
        ),
        file_after_gen(file_after_gen(before)) == file_after_gen(before),
        before is None ==> file_after_gen(before) == Some(sample_spec()),
{
}

} // verus!
