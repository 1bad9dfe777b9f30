use restic_generator::config::{Config, RepositoryConfig};
use restic_generator::unit::{
    generate_backup_service, generate_forget_service, generate_prune_service, render_unit,
    text_of_lines, Context, UnitKind,
};

fn context() -> Context {
    Context {
        config_path: "/etc/restic-generator/config.toml".into(),
        program_name: "restic-generator".into(),
        hostname: "laptop".into(),
    }
}

fn config() -> Config {
    Config {
        source: "/home".into(),
        exclude: vec![".cache".into()],
        repositories: vec![],
        host: None,
    }
}

fn local_repository() -> RepositoryConfig {
    RepositoryConfig {
        name: "myrepo".into(),
        location: "/media/backup".into(),
        password_file: Some("/etc/restic/password".into()),
        keep_daily: Some(7),
        keep_within: Some("1y".into()),
        ..RepositoryConfig::default()
    }
}

fn sftp_repository() -> RepositoryConfig {
    RepositoryConfig {
        name: "sftprepo".into(),
        location: "sftp:user@host:/srv/restic-repo".into(),
        password_command: Some("pass show restic".into()),
        ..RepositoryConfig::default()
    }
}

fn s3_repository() -> RepositoryConfig {
    RepositoryConfig {
        name: "s3bucket".into(),
        location: "s3:s3.amazonaws.com/bucket_name".into(),
        password_file: Some("/etc/restic/password".into()),
        password_command: Some("pass show restic".into()),
        aws_access_key: Some("AKIA".into()),
        aws_secret_access_key: Some("hunter2".into()),
        ..RepositoryConfig::default()
    }
}

#[test]
fn local_backup_service() {
    let text = generate_backup_service(&context(), &config(), &local_repository());
    assert_eq!(
        text,
        "# generated by restic-generator\n\
         [Unit]\n\
         Description=backup /home to /media/backup\n\
         SourcePath=/etc/restic-generator/config.toml\n\
         ConditionPathExists=/home\n\
         ConditionPathExists=/media/backup\n\
         \n\
         [Service]\n\
         Environment=RESTIC_REPOSITORY=\"/media/backup\"\n\
         Environment=RESTIC_PASSWORD_FILE=\"/etc/restic/password\"\n\
         Type=oneshot\n\
         ExecStartPre=restic unlock\n\
         ExecStart=restic backup --host=\"laptop\" --exclude=\".cache\" /home\n\
         SuccessExitStatus=3\n\
         Nice=10\n\
         IOSchedulingClass=idle\n"
    );
}

#[test]
fn local_forget_service() {
    let text = generate_forget_service(&context(), &config(), &local_repository());
    assert_eq!(
        text.as_deref(),
        Some(
            "# generated by restic-generator\n\
             [Unit]\n\
             Description=forget /home from /media/backup\n\
             SourcePath=/etc/restic-generator/config.toml\n\
             ConditionPathExists=/media/backup\n\
             \n\
             [Service]\n\
             Environment=RESTIC_REPOSITORY=\"/media/backup\"\n\
             Environment=RESTIC_PASSWORD_FILE=\"/etc/restic/password\"\n\
             Type=oneshot\n\
             ExecStartPre=restic unlock\n\
             ExecStart=restic forget --host=\"laptop\" --path=\"/home\" --keep-daily=\"7\" --keep-within=\"1y\"\n\
             Nice=10\n\
             IOSchedulingClass=idle\n"
        )
    );
}

#[test]
fn local_prune_service() {
    let text = generate_prune_service(&context(), &config(), &local_repository());
    assert_eq!(
        text.as_deref(),
        Some(
            "# generated by restic-generator\n\
             [Unit]\n\
             Description=Prune /media/backup\n\
             SourcePath=/etc/restic-generator/config.toml\n\
             ConditionPathExists=/media/backup\n\
             \n\
             [Service]\n\
             Environment=RESTIC_REPOSITORY=\"/media/backup\"\n\
             Environment=RESTIC_PASSWORD_FILE=\"/etc/restic/password\"\n\
             Type=oneshot\n\
             ExecStartPre=restic unlock\n\
             ExecStart=restic prune\n\
             Nice=10\n\
             IOSchedulingClass=idle\n"
        )
    );
}

#[test]
fn remote_backup_service() {
    let text = generate_backup_service(&context(), &config(), &sftp_repository());
    assert_eq!(
        text,
        "# generated by restic-generator\n\
         [Unit]\n\
         Description=backup /home to sftp:user@host:/srv/restic-repo\n\
         SourcePath=/etc/restic-generator/config.toml\n\
         ConditionPathExists=/home\n\
         \n\
         [Service]\n\
         Environment=RESTIC_REPOSITORY=\"sftp:user@host:/srv/restic-repo\"\n\
         Environment=RESTIC_PASSWORD_COMMAND=\"pass show restic\"\n\
         Type=oneshot\n\
         ExecStartPre=restic unlock\n\
         ExecStart=restic backup --host=\"laptop\" --exclude=\".cache\" /home\n\
         SuccessExitStatus=3\n\
         Nice=10\n\
         IOSchedulingClass=idle\n"
    );
}

#[test]
fn s3_backup_service() {
    let text = generate_backup_service(&context(), &config(), &s3_repository());
    assert_eq!(
        text,
        "# generated by restic-generator\n\
         [Unit]\n\
         Description=backup /home to s3:s3.amazonaws.com/bucket_name\n\
         SourcePath=/etc/restic-generator/config.toml\n\
         ConditionPathExists=/home\n\
         \n\
         [Service]\n\
         Environment=RESTIC_REPOSITORY=\"s3:s3.amazonaws.com/bucket_name\"\n\
         Environment=RESTIC_PASSWORD_FILE=\"/etc/restic/password\"\n\
         Environment=RESTIC_PASSWORD_COMMAND=\"pass show restic\"\n\
         Environment=AWS_ACCESS_KEY=\"AKIA\"\n\
         Environment=AWS_SECRET_ACCESS_KEY=\"hunter2\"\n\
         Type=oneshot\n\
         ExecStartPre=restic unlock\n\
         ExecStart=restic backup --host=\"laptop\" --exclude=\".cache\" /home\n\
         SuccessExitStatus=3\n\
         Nice=10\n\
         IOSchedulingClass=idle\n"
    );
}

#[test]
fn configured_host_replaces_the_local_one() {
    let mut config = config();
    config.host = Some("server".into());
    let backup = generate_backup_service(&context(), &config, &local_repository());
    assert!(backup.contains("ExecStart=restic backup --host=\"server\" --exclude=\".cache\" /home\n"));
    assert!(!backup.contains("laptop"));
    let forget = generate_forget_service(&context(), &config, &local_repository()).unwrap();
    assert!(forget.contains("ExecStart=restic forget --host=\"server\" --path=\"/home\" "));
    assert!(!forget.contains("laptop"));
}

#[test]
fn no_forget_service_without_policy() {
    assert_eq!(generate_forget_service(&context(), &config(), &sftp_repository()), None);
    assert_eq!(generate_forget_service(&context(), &config(), &RepositoryConfig::default()), None);
}

#[test]
fn no_prune_service_without_policy() {
    assert_eq!(generate_prune_service(&context(), &config(), &sftp_repository()), None);
    assert_eq!(generate_prune_service(&context(), &config(), &RepositoryConfig::default()), None);
}

#[test]
fn render_unit_follows_the_policy() {
    let with = local_repository();
    let without = sftp_repository();
    assert!(render_unit(UnitKind::Backup, &context(), &config(), &with).is_some());
    assert!(render_unit(UnitKind::Forget, &context(), &config(), &with).is_some());
    assert!(render_unit(UnitKind::Prune, &context(), &config(), &with).is_some());
    assert!(render_unit(UnitKind::Backup, &context(), &config(), &without).is_some());
    assert!(render_unit(UnitKind::Forget, &context(), &config(), &without).is_none());
    assert!(render_unit(UnitKind::Prune, &context(), &config(), &without).is_none());
}

#[test]
fn render_unit_gives_the_lines_of_the_text() {
    for kind in [UnitKind::Backup, UnitKind::Forget, UnitKind::Prune] {
        let lines = render_unit(kind, &context(), &config(), &local_repository()).unwrap();
        let text = match kind {
            UnitKind::Backup => generate_backup_service(&context(), &config(), &local_repository()),
            UnitKind::Forget => {
                generate_forget_service(&context(), &config(), &local_repository()).unwrap()
            }
            UnitKind::Prune => {
                generate_prune_service(&context(), &config(), &local_repository()).unwrap()
            }
        };
        assert_eq!(text_of_lines(&lines), text);
        assert_eq!(text.lines().map(String::from).collect::<Vec<String>>(), lines);
    }
}

#[test]
fn backup_counts_exit_status_3_as_success() {
    for repository in [local_repository(), sftp_repository(), s3_repository(), RepositoryConfig::default()] {
        let lines = render_unit(UnitKind::Backup, &context(), &config(), &repository).unwrap();
        assert!(lines.contains(&"SuccessExitStatus=3".to_string()));
        let at = lines.iter().position(|line| line == "SuccessExitStatus=3").unwrap();
        assert!(lines[at - 1].starts_with("ExecStart=restic backup "));
    }
}

#[test]
fn forget_and_prune_do_not_count_exit_status_3_as_success() {
    let mut repository = local_repository();
    repository.location = "SuccessExitStatus=3".into();
    repository.password_file = Some("SuccessExitStatus=3".into());
    for kind in [UnitKind::Forget, UnitKind::Prune] {
        let lines = render_unit(kind, &context(), &config(), &repository).unwrap();
        assert!(!lines.contains(&"SuccessExitStatus=3".to_string()));
    }
}

#[test]
fn every_unit_ends_with_its_action() {
    for kind in [UnitKind::Backup, UnitKind::Forget, UnitKind::Prune] {
        let lines = render_unit(kind, &context(), &config(), &s3_repository_with_policy()).unwrap();
        let last = lines.len() - 1;
        assert_eq!(lines[last], "IOSchedulingClass=idle");
        assert_eq!(lines[last - 1], "Nice=10");
        let command = if kind == UnitKind::Backup { last - 3 } else { last - 2 };
        assert!(lines[command].starts_with("ExecStart=restic "));
        assert_eq!(lines[command - 1], "ExecStartPre=restic unlock");
        assert_eq!(lines[command - 2], "Type=oneshot");
    }
}

fn s3_repository_with_policy() -> RepositoryConfig {
    RepositoryConfig { keep_last: Some(3), ..s3_repository() }
}

#[test]
fn environment_is_the_same_in_every_kind() {
    let repository = s3_repository_with_policy();
    let expected = vec![
        "Environment=RESTIC_REPOSITORY=\"s3:s3.amazonaws.com/bucket_name\"".to_string(),
        "Environment=RESTIC_PASSWORD_FILE=\"/etc/restic/password\"".to_string(),
        "Environment=RESTIC_PASSWORD_COMMAND=\"pass show restic\"".to_string(),
        "Environment=AWS_ACCESS_KEY=\"AKIA\"".to_string(),
        "Environment=AWS_SECRET_ACCESS_KEY=\"hunter2\"".to_string(),
    ];
    for kind in [UnitKind::Backup, UnitKind::Forget, UnitKind::Prune] {
        let lines = render_unit(kind, &context(), &config(), &repository).unwrap();
        let environment: Vec<String> =
            lines.into_iter().filter(|line| line.starts_with("Environment=")).collect();
        assert_eq!(environment, expected);
    }
}

fn conditions(lines: &[String]) -> Vec<String> {
    lines.iter().filter(|line| line.starts_with("ConditionPathExists=")).cloned().collect()
}

#[test]
fn every_unit_of_a_local_repository_requires_the_repository() {
    let repository = local_repository();
    for kind in [UnitKind::Backup, UnitKind::Forget, UnitKind::Prune] {
        let lines = render_unit(kind, &context(), &config(), &repository).unwrap();
        assert!(lines.contains(&"ConditionPathExists=/media/backup".to_string()));
    }
}

#[test]
fn only_a_backup_requires_the_data_source() {
    let repository = local_repository();
    let backup = render_unit(UnitKind::Backup, &context(), &config(), &repository).unwrap();
    assert_eq!(
        conditions(&backup),
        vec![
            "ConditionPathExists=/home".to_string(),
            "ConditionPathExists=/media/backup".to_string(),
        ]
    );
    for kind in [UnitKind::Forget, UnitKind::Prune] {
        let lines = render_unit(kind, &context(), &config(), &repository).unwrap();
        assert_eq!(conditions(&lines), vec!["ConditionPathExists=/media/backup".to_string()]);
    }
}

#[test]
fn a_remote_repository_is_no_condition() {
    let repository = s3_repository_with_policy();
    let backup = render_unit(UnitKind::Backup, &context(), &config(), &repository).unwrap();
    assert_eq!(conditions(&backup), vec!["ConditionPathExists=/home".to_string()]);
    for kind in [UnitKind::Forget, UnitKind::Prune] {
        let lines = render_unit(kind, &context(), &config(), &repository).unwrap();
        assert!(conditions(&lines).is_empty());
    }
}

#[test]
fn conditions_follow_the_heading() {
    let repository = local_repository();
    for kind in [UnitKind::Forget, UnitKind::Prune] {
        let lines = render_unit(kind, &context(), &config(), &repository).unwrap();
        assert_eq!(lines[3], "SourcePath=/etc/restic-generator/config.toml");
        assert_eq!(lines[4], "ConditionPathExists=/media/backup");
        assert_eq!(lines[5], "");
        assert_eq!(lines[6], "[Service]");
    }
    let remote = s3_repository_with_policy();
    for kind in [UnitKind::Forget, UnitKind::Prune] {
        let lines = render_unit(kind, &context(), &config(), &remote).unwrap();
        assert_eq!(lines[4], "");
        assert_eq!(lines[5], "[Service]");
    }
}

#[test]
fn remote_forget_service() {
    let text = generate_forget_service(&context(), &config(), &s3_repository_with_policy());
    assert_eq!(
        text.as_deref(),
        Some(
            "# generated by restic-generator\n\
             [Unit]\n\
             Description=forget /home from s3:s3.amazonaws.com/bucket_name\n\
             SourcePath=/etc/restic-generator/config.toml\n\
             \n\
             [Service]\n\
             Environment=RESTIC_REPOSITORY=\"s3:s3.amazonaws.com/bucket_name\"\n\
             Environment=RESTIC_PASSWORD_FILE=\"/etc/restic/password\"\n\
             Environment=RESTIC_PASSWORD_COMMAND=\"pass show restic\"\n\
             Environment=AWS_ACCESS_KEY=\"AKIA\"\n\
             Environment=AWS_SECRET_ACCESS_KEY=\"hunter2\"\n\
             Type=oneshot\n\
             ExecStartPre=restic unlock\n\
             ExecStart=restic forget --host=\"laptop\" --path=\"/home\" --keep-last=\"3\"\n\
             Nice=10\n\
             IOSchedulingClass=idle\n"
        )
    );
}

#[test]
fn remote_prune_service() {
    let text = generate_prune_service(&context(), &config(), &s3_repository_with_policy());
    assert_eq!(
        text.as_deref(),
        Some(
            "# generated by restic-generator\n\
             [Unit]\n\
             Description=Prune s3:s3.amazonaws.com/bucket_name\n\
             SourcePath=/etc/restic-generator/config.toml\n\
             \n\
             [Service]\n\
             Environment=RESTIC_REPOSITORY=\"s3:s3.amazonaws.com/bucket_name\"\n\
             Environment=RESTIC_PASSWORD_FILE=\"/etc/restic/password\"\n\
             Environment=RESTIC_PASSWORD_COMMAND=\"pass show restic\"\n\
             Environment=AWS_ACCESS_KEY=\"AKIA\"\n\
             Environment=AWS_SECRET_ACCESS_KEY=\"hunter2\"\n\
             Type=oneshot\n\
             ExecStartPre=restic unlock\n\
             ExecStart=restic prune\n\
             Nice=10\n\
             IOSchedulingClass=idle\n"
        )
    );
}

#[test]
fn values_are_not_escaped() {
    let repository = RepositoryConfig {
        name: "odd".into(),
        location: "/media/my \"backup\"".into(),
        ..RepositoryConfig::default()
    };
    let lines = render_unit(UnitKind::Backup, &context(), &config(), &repository).unwrap();
    assert_eq!(lines[5], "ConditionPathExists=/media/my \"backup\"");
    assert_eq!(lines[8], "Environment=RESTIC_REPOSITORY=\"/media/my \"backup\"\"");
}

#[test]
fn text_of_no_lines_is_empty() {
    assert_eq!(text_of_lines(&vec![]), "");
}

#[test]
fn text_ends_every_line() {
    assert_eq!(text_of_lines(&vec!["a".to_string(), String::new(), "b".to_string()]), "a\n\nb\n");
}
