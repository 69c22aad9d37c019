use meshcode_loader::config::{Cli, resolve_config, worker_count_from};
use meshcode_loader::errors::PipelineError;
use meshcode_loader::level::{Level, parse_levels, parse_token};

fn toks(ts: &[&str]) -> Vec<String> {
    ts.iter().map(|s| s.to_string()).collect()
}

#[test]
fn numeric_tokens_name_levels() {
    assert_eq!(parse_token(&"1".to_string()), Some(Level::Lv1));
    assert_eq!(parse_token(&"2".to_string()), Some(Level::Lv2));
    assert_eq!(parse_token(&"6".to_string()), Some(Level::Lv6));
    assert_eq!(parse_token(&"40000".to_string()), Some(Level::X40));
    assert_eq!(parse_token(&"2500".to_string()), Some(Level::X2_5));
}

#[test]
fn symbolic_tokens_name_levels() {
    assert_eq!(parse_token(&"Lv1".to_string()), Some(Level::Lv1));
    assert_eq!(parse_token(&"Lv6".to_string()), Some(Level::Lv6));
    assert_eq!(parse_token(&"X40".to_string()), Some(Level::X40));
    assert_eq!(parse_token(&"X2_5".to_string()), Some(Level::X2_5));
    assert_eq!(parse_token(&"X16".to_string()), Some(Level::X16));
}

#[test]
fn unknown_tokens_are_rejected() {
    assert_eq!(parse_token(&"7".to_string()), None);
    assert_eq!(parse_token(&"lv1".to_string()), None);
    assert_eq!(parse_token(&"".to_string()), None);
    assert_eq!(parse_token(&"80km".to_string()), None);
}

#[test]
fn parse_levels_reports_the_bad_token() {
    let r = parse_levels(&toks(&["1", "bogus", "3"]));
    match r {
        Err(PipelineError::InvalidLevelToken(t)) => assert_eq!(t, "bogus"),
        _ => panic!("expected an invalid-token error"),
    }
    let ok = parse_levels(&toks(&["1", "X20", "Lv3"])).unwrap();
    assert_eq!(ok, vec![Level::Lv1, Level::X20, Level::Lv3]);
}

#[test]
fn all_levels_in_declaration_order() {
    let all = Level::all();
    assert_eq!(all.len(), 14);
    assert_eq!(all[0], Level::Lv1);
    assert_eq!(all[1], Level::X40);
    assert_eq!(all[13], Level::Lv6);
}

#[test]
fn tags_round_trip() {
    for level in Level::all() {
        assert_eq!(Level::from_tag(level.tag()), Some(level));
    }
    assert_eq!(Level::from_tag(0), None);
    assert_eq!(Level::from_tag(7), None);
}

#[test]
fn config_defaults_cover_everything() {
    let cli = Cli {
        postgres_url: "postgres://localhost/db".to_string(),
        skip_metadata: false,
        levels: None,
        root_meshes: None,
    };
    let cfg = resolve_config(cli).unwrap();
    assert_eq!(cfg.levels.len(), 14);
    assert_eq!(cfg.root_meshes.len(), 176);
    assert!(!cfg.skip_metadata);
    assert!(cfg.workers >= 1);
    assert_eq!(cfg.channel_capacity, 10_000);
    assert_eq!(cfg.batch_size, 5_000);
}

#[test]
fn config_empty_level_list_means_all() {
    let cli = Cli {
        postgres_url: String::new(),
        skip_metadata: true,
        levels: Some(vec![]),
        root_meshes: Some(vec![5339]),
    };
    let cfg = resolve_config(cli).unwrap();
    assert_eq!(cfg.levels.len(), 14);
    assert_eq!(cfg.root_meshes, vec![5339]);
    assert!(cfg.skip_metadata);
}

#[test]
fn config_rejects_a_bad_level_before_running() {
    let cli = Cli {
        postgres_url: String::new(),
        skip_metadata: false,
        levels: Some(toks(&["1", "9999"])),
        root_meshes: None,
    };
    match resolve_config(cli) {
        Err(PipelineError::InvalidLevelToken(t)) => assert_eq!(t, "9999"),
        _ => panic!("expected an invalid-token error"),
    }
}

#[test]
fn worker_count_is_four_per_processor_with_a_cap() {
    assert_eq!(worker_count_from(1), 4);
    assert_eq!(worker_count_from(16), 64);
    assert_eq!(worker_count_from(1024), 4096);
    assert_eq!(worker_count_from(100_000), 4096);
}
