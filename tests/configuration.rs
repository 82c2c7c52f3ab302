use supamarker::config::{
    candidate_config_paths, default_config_path, join_path, plan_gen_config, resolve_config,
    ConfigError, ConfigLayer,
};

fn layer(url: Option<&str>, key: Option<&str>, bucket: Option<&str>, table: Option<&str>) -> ConfigLayer {
    ConfigLayer {
        supabase_url: url.map(|s| s.to_string()),
        supabase_service_key: key.map(|s| s.to_string()),
        bucket: bucket.map(|s| s.to_string()),
        table: table.map(|s| s.to_string()),
    }
}

#[test]
fn file_values_win_over_environment() {
    let file = layer(Some("https://file.co"), Some("fkey"), Some("fb"), None);
    let env = layer(Some("https://env.co"), Some("ekey"), Some("eb"), Some("et"));
    let c = match resolve_config(Some(file), env) {
        Ok(c) => c,
        Err(_) => panic!("config expected"),
    };
    assert_eq!(c.supabase_url, "https://file.co");
    assert_eq!(c.service_key, "fkey");
    assert_eq!(c.bucket, "fb");
    assert_eq!(c.table, "et");
}

#[test]
fn defaults_for_bucket_and_table() {
    let c = match resolve_config(None, layer(Some("u"), Some("k"), None, None)) {
        Ok(c) => c,
        Err(_) => panic!("config expected"),
    };
    assert_eq!(c.bucket, "blog");
    assert_eq!(c.table, "posts");
}

#[test]
fn missing_url_everywhere_is_a_config_error() {
    let file = layer(None, Some("k"), None, None);
    let env = layer(None, Some("k"), None, None);
    assert!(matches!(resolve_config(Some(file), env), Err(ConfigError::MissingSupabaseUrl)));
    assert!(matches!(
        resolve_config(None, layer(None, None, None, None)),
        Err(ConfigError::MissingSupabaseUrl)
    ));
}

#[test]
fn missing_key_everywhere_is_a_config_error() {
    let env = layer(Some("u"), None, Some("b"), Some("t"));
    assert!(matches!(resolve_config(None, env), Err(ConfigError::MissingServiceKey)));
}

#[test]
fn cli_path_is_the_only_candidate() {
    let p = candidate_config_paths(
        Some("/etc/my.toml".to_string()),
        Some("/work".to_string()),
        Some("/xdg".to_string()),
        Some("/home/u".to_string()),
    );
    assert_eq!(p, vec!["/etc/my.toml".to_string()]);
}

#[test]
fn candidates_without_cli_path() {
    let p = candidate_config_paths(None, Some("/work".to_string()), None, Some("/home/u/".to_string()));
    assert_eq!(
        p,
        vec![
            "/work/config.toml".to_string(),
            "/home/u/.config/supamarker/config.toml".to_string()
        ]
    );
    let q = candidate_config_paths(None, None, Some("/xdg".to_string()), Some("/home/u".to_string()));
    assert_eq!(q, vec!["/xdg/supamarker/config.toml".to_string()]);
    assert!(candidate_config_paths(None, None, None, None).is_empty());
}

#[test]
fn default_path_prefers_config_home() {
    let p = default_config_path(Some("/xdg".to_string()), Some("/home/u".to_string()));
    assert_eq!(p, Ok("/xdg/supamarker/config.toml".to_string()));
    let h = default_config_path(None, Some("/home/u".to_string()));
    assert_eq!(h, Ok("/home/u/.config/supamarker/config.toml".to_string()));
    assert_eq!(default_config_path(None, None), Err(ConfigError::NoConfigHome));
}

#[test]
fn join_adds_one_separator() {
    assert_eq!(join_path("/a", "b"), "/a/b");
    assert_eq!(join_path("/a/", "b"), "/a/b");
    assert_eq!(join_path("", "b"), "b");
}

#[test]
fn gen_config_twice_refuses_the_second_time() {
    let mut file: Option<String> = None;
    let first = plan_gen_config(file.is_some());
    match &first {
        Ok(text) => file = Some(text.clone()),
        Err(_) => panic!("first run must write"),
    }
    let written = file.clone();
    let second = plan_gen_config(file.is_some());
    assert_eq!(second, Err(ConfigError::AlreadyExists));
    assert_eq!(file, written);
    let text = first.unwrap();
    assert!(text.starts_with("supabase_url = \"https://xxxxx.supabase.co\"\n"));
    assert!(text.ends_with("table = \"posts\"\n"));
}
