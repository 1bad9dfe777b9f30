use restic_generator::config::{Config, RepositoryConfig};
use restic_generator::driver::{
    generate_repository_units, generate_units, unit_file_name_of, UnitFile,
};
use restic_generator::unit::{
    generate_backup_service, generate_forget_service, generate_prune_service, Context, UnitKind,
};

fn context() -> Context {
    Context {
        config_path: "/home/user/.config/restic-generator/config.toml".into(),
        program_name: "restic-generator".into(),
        hostname: "laptop".into(),
    }
}

fn repository(name: &str, location: &str, keep_last: Option<usize>) -> RepositoryConfig {
    RepositoryConfig {
        name: name.into(),
        location: location.into(),
        keep_last,
        ..RepositoryConfig::default()
    }
}

fn config(repositories: Vec<RepositoryConfig>) -> Config {
    Config { source: "/".into(), exclude: vec![], repositories, host: Some("server".into()) }
}

fn names(files: &[UnitFile]) -> Vec<String> {
    files.iter().map(|file| file.name.clone()).collect()
}

#[test]
fn file_names_follow_the_scheme() {
    assert_eq!(unit_file_name_of("myrepo", UnitKind::Backup), "restic-myrepo-backup.service");
    assert_eq!(unit_file_name_of("myrepo", UnitKind::Forget), "restic-myrepo-forget.service");
    assert_eq!(unit_file_name_of("myrepo", UnitKind::Prune), "restic-myrepo-prune.service");
    assert_eq!(unit_file_name_of("", UnitKind::Backup), "restic--backup.service");
}

#[test]
fn file_names_do_not_collide() {
    let repositories = ["a", "a-backup", "a-prune", "b", "", "-", "a-forget.service"];
    let kinds = [UnitKind::Backup, UnitKind::Forget, UnitKind::Prune];
    let mut seen: Vec<String> = vec![];
    for name in repositories {
        for kind in kinds {
            let file = unit_file_name_of(name, kind);
            assert!(!seen.contains(&file));
            seen.push(file);
        }
    }
    assert_eq!(seen.len(), 21);
}

#[test]
fn no_configuration_no_units() {
    assert!(generate_units(&context(), &config(vec![])).is_empty());
}

#[test]
fn repository_without_policy_gets_a_backup_unit_only() {
    let config = config(vec![]);
    let repo = repository("plain", "/media/backup", None);
    let files = generate_repository_units(&context(), &config, &repo);
    assert_eq!(names(&files), vec!["restic-plain-backup.service".to_string()]);
    assert_eq!(files[0].kind, UnitKind::Backup);
    assert_eq!(files[0].content, generate_backup_service(&context(), &config, &repo));
}

#[test]
fn repository_with_policy_gets_all_three_units() {
    let config = config(vec![]);
    let repo = repository("kept", "/media/backup", Some(5));
    let files = generate_repository_units(&context(), &config, &repo);
    assert_eq!(
        names(&files),
        vec![
            "restic-kept-backup.service".to_string(),
            "restic-kept-forget.service".to_string(),
            "restic-kept-prune.service".to_string(),
        ]
    );
    assert_eq!(files[0].kind, UnitKind::Backup);
    assert_eq!(files[1].kind, UnitKind::Forget);
    assert_eq!(files[2].kind, UnitKind::Prune);
    assert_eq!(files[0].content, generate_backup_service(&context(), &config, &repo));
    assert_eq!(Some(files[1].content.clone()), generate_forget_service(&context(), &config, &repo));
    assert_eq!(Some(files[2].content.clone()), generate_prune_service(&context(), &config, &repo));
}

#[test]
fn every_retention_field_brings_both_units() {
    let fields: Vec<RepositoryConfig> = vec![
        RepositoryConfig { keep_last: Some(1), ..RepositoryConfig::default() },
        RepositoryConfig { keep_hourly: Some(1), ..RepositoryConfig::default() },
        RepositoryConfig { keep_daily: Some(1), ..RepositoryConfig::default() },
        RepositoryConfig { keep_weekly: Some(1), ..RepositoryConfig::default() },
        RepositoryConfig { keep_monthly: Some(1), ..RepositoryConfig::default() },
        RepositoryConfig { keep_yearly: Some(1), ..RepositoryConfig::default() },
        RepositoryConfig { keep_tag: Some("t".into()), ..RepositoryConfig::default() },
        RepositoryConfig { keep_within: Some("1d".into()), ..RepositoryConfig::default() },
    ];
    let config = config(vec![]);
    for repo in fields {
        let files = generate_repository_units(&context(), &config, &repo);
        let kinds: Vec<UnitKind> = files.iter().map(|file| file.kind).collect();
        assert_eq!(kinds, vec![UnitKind::Backup, UnitKind::Forget, UnitKind::Prune]);
    }
}

#[test]
fn units_come_in_declaration_order() {
    let config = config(vec![
        repository("first", "/media/backup", Some(3)),
        repository("second", "sftp:host:/repo", None),
        repository("third", "s3:host/bucket", Some(1)),
    ]);
    let files = generate_units(&context(), &config);
    assert_eq!(
        names(&files),
        vec![
            "restic-first-backup.service".to_string(),
            "restic-first-forget.service".to_string(),
            "restic-first-prune.service".to_string(),
            "restic-second-backup.service".to_string(),
            "restic-third-backup.service".to_string(),
            "restic-third-forget.service".to_string(),
            "restic-third-prune.service".to_string(),
        ]
    );
}

#[test]
fn a_repository_without_policy_leaves_the_others_alone() {
    let with = repository("with", "/media/backup", Some(3));
    let alone = generate_units(&context(), &config(vec![repository("with", "/media/backup", Some(3))]));
    let mixed = generate_units(
        &context(),
        &config(vec![repository("without", "/media/other", None), with]),
    );
    assert_eq!(mixed.len(), 4);
    assert_eq!(mixed[0].name, "restic-without-backup.service");
    for (one, other) in alone.iter().zip(mixed[1..].iter()) {
        assert_eq!(one.kind, other.kind);
        assert_eq!(one.name, other.name);
        assert_eq!(one.content, other.content);
    }
    assert!(mixed.iter().all(|file| file.name != "restic-without-forget.service"));
    assert!(mixed.iter().all(|file| file.name != "restic-without-prune.service"));
}

#[test]
fn units_hold_the_text_of_their_repository() {
    let config = config(vec![
        repository("first", "/media/backup", Some(3)),
        repository("second", "sftp:host:/repo", None),
    ]);
    let files = generate_units(&context(), &config);
    assert_eq!(files[0].content, generate_backup_service(&context(), &config, &config.repositories[0]));
    assert_eq!(
        Some(files[1].content.clone()),
        generate_forget_service(&context(), &config, &config.repositories[0])
    );
    assert_eq!(
        Some(files[2].content.clone()),
        generate_prune_service(&context(), &config, &config.repositories[0])
    );
    assert_eq!(files[3].content, generate_backup_service(&context(), &config, &config.repositories[1]));
    assert!(files[3].content.contains("Description=backup / to sftp:host:/repo\n"));
    assert!(files[0].content.contains("SourcePath=/home/user/.config/restic-generator/config.toml\n"));
}

#[test]
fn generation_is_repeatable() {
    let build = || {
        config(vec![
            repository("first", "/media/backup", Some(3)),
            repository("second", "sftp:host:/repo", None),
        ])
    };
    let first = generate_units(&context(), &build());
    let second = generate_units(&context(), &build());
    assert_eq!(first.len(), second.len());
    for (one, other) in first.iter().zip(second.iter()) {
        assert_eq!(one.kind, other.kind);
        assert_eq!(one.name.as_bytes(), other.name.as_bytes());
        assert_eq!(one.content.as_bytes(), other.content.as_bytes());
    }
}
