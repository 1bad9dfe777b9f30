//! The text of the service units.
//!
//! A unit is a list of lines. The three kinds share their layout: a heading
//! that says what the unit does and where it comes from, the conditions
//! under which it runs, the environment that restic reads, and the action
//! with its scheduling policy.

use crate::command::{backup_cmd, backup_command, forget_cmd, forget_command};
use crate::config::{text_of, Config, ConfigView, RepositoryConfig, RepositoryView};
use crate::location::{is_local, is_local_repository};
use crate::text::texts;
use vstd::prelude::*;

verus! {

/// What a unit does.
#[derive(Clone, Copy, Debug, PartialEq, Eq, Structural)]
pub enum UnitKind {
    /// Takes a snapshot of the data source.
    Backup,
    /// Marks the snapshots that the retention policy gives up.
    Forget,
    /// Frees the space of forgotten snapshots.
    Prune,
}

/// What is known of the run that generates the units.
#[derive(Debug)]
pub struct Context {
    /// The configuration file that the units are generated from.
    pub config_path: String,
    /// The name of the generating program.
    pub program_name: String,
    /// The name of the local host.
    pub hostname: String,
}

/// What a [`Context`] holds, as mathematical values.
pub struct ContextView {
    pub config_path: Seq<char>,
    pub program_name: Seq<char>,
    pub hostname: Seq<char>,
}

impl View for Context {
    type V = ContextView;

    open spec fn view(&self) -> ContextView {
        ContextView {
            config_path: self.config_path@,
            program_name: self.program_name@,
            hostname: self.hostname@,
        }
    }
}

/// A backup unit exists for every repository; forget and prune units exist
/// for the repositories that have a retention policy, and for no others.
pub open spec fn unit_applies(kind: UnitKind, repository: RepositoryView) -> bool {
    kind is Backup || repository.has_forget_policy()
}

/// The host that snapshots are recorded under: the configured one, or else
/// the local host.
pub open spec fn snapshot_host(context: ContextView, config: ConfigView) -> Seq<char> {
    match config.host {
        Some(host) => host,
        None => context.hostname,
    }
}

/// The line that says what the unit does.
pub open spec fn description_line(
    kind: UnitKind,
    config: ConfigView,
    repository: RepositoryView,
) -> Seq<char> {
    match kind {
        UnitKind::Backup => "Description=backup "@ + config.source + " to "@ + repository.location,
        UnitKind::Forget => "Description=forget "@ + config.source + " from "@
            + repository.location,
        UnitKind::Prune => "Description=Prune "@ + repository.location,
    }
}

/// The heading: who generated the unit, the `[Unit]` section with the
/// description, and the configuration file that the unit comes from.
pub open spec fn heading_lines(
    kind: UnitKind,
    context: ContextView,
    config: ConfigView,
    repository: RepositoryView,
) -> Seq<Seq<char>> {
    seq![
        "# generated by "@ + context.program_name,
        "[Unit]"@,
        description_line(kind, config, repository),
        "SourcePath="@ + context.config_path,
    ]
}

/// The line that lets a unit run only where `path` exists.
pub open spec fn condition_line(path: Seq<char>) -> Seq<char> {
    "ConditionPathExists="@ + path
}

/// A backup runs only where its data source exists; forget and prune do
/// not read the data source and do not ask for it.
pub open spec fn source_condition(kind: UnitKind, config: ConfigView) -> Seq<Seq<char>> {
    if kind is Backup {
        seq![condition_line(config.source)]
    } else {
        seq![]
    }
}

/// A unit of any kind runs only where its repository exists, if the
/// repository is local. Of a remote repository nothing can be asked.
pub open spec fn repository_condition(repository: RepositoryView) -> Seq<Seq<char>> {
    if is_local(repository.location) {
        seq![condition_line(repository.location)]
    } else {
        seq![]
    }
}

/// The paths that must exist for the unit to run: the data source of a
/// backup, then the repository where it is local.
pub open spec fn condition_lines(
    kind: UnitKind,
    config: ConfigView,
    repository: RepositoryView,
) -> Seq<Seq<char>> {
    source_condition(kind, config) + repository_condition(repository)
}

/// The line that sets one environment variable, its value in double quotes.
pub open spec fn environment_line(name: Seq<char>, value: Seq<char>) -> Seq<char> {
    "Environment="@ + name + "=\""@ + value + "\""@
}

/// The line of an optional variable, if it has a value.
pub open spec fn optional_environment(name: Seq<char>, value: Option<Seq<char>>) -> Seq<
    Seq<char>,
> {
    match value {
        Some(text) => seq![environment_line(name, text)],
        None => seq![],
    }
}

/// The environment of every unit: the repository, then the credentials that
/// are present, always in this order.
pub open spec fn environment_lines(repository: RepositoryView) -> Seq<Seq<char>> {
    seq![environment_line("RESTIC_REPOSITORY"@, repository.location)] + optional_environment(
        "RESTIC_PASSWORD_FILE"@,
        repository.password_file,
    ) + optional_environment("RESTIC_PASSWORD_COMMAND"@, repository.password_command)
        + optional_environment("AWS_ACCESS_KEY"@, repository.aws_access_key)
        + optional_environment("AWS_SECRET_ACCESS_KEY"@, repository.aws_secret_access_key)
}

/// The line that runs the unit's command.
pub open spec fn exec_start_line(
    kind: UnitKind,
    context: ContextView,
    config: ConfigView,
    repository: RepositoryView,
) -> Seq<char> {
    match kind {
        UnitKind::Backup => "ExecStart="@ + backup_command(
            config.source,
            snapshot_host(context, config),
            config.exclude,
        ),
        UnitKind::Forget => "ExecStart="@ + forget_command(
            snapshot_host(context, config),
            config.source,
            repository,
        ),
        UnitKind::Prune => "ExecStart=restic prune"@,
    }
}

/// The action: a one-shot service that unlocks the repository and then runs
/// its command, at low CPU priority and in the idle I/O class. A backup
/// also counts exit status 3 as success: restic ends with it when a file
/// could not be read, as happens when one is removed during the backup.
pub open spec fn action_lines(
    kind: UnitKind,
    context: ContextView,
    config: ConfigView,
    repository: RepositoryView,
) -> Seq<Seq<char>> {
    if kind is Backup {
        seq![
            "Type=oneshot"@,
            "ExecStartPre=restic unlock"@,
            exec_start_line(kind, context, config, repository),
            "SuccessExitStatus=3"@,
            "Nice=10"@,
            "IOSchedulingClass=idle"@,
        ]
    } else {
        seq![
            "Type=oneshot"@,
            "ExecStartPre=restic unlock"@,
            exec_start_line(kind, context, config, repository),
            "Nice=10"@,
            "IOSchedulingClass=idle"@,
        ]
    }
}

/// The lines of a unit, from first to last.
pub open spec fn unit_lines(
    kind: UnitKind,
    context: ContextView,
    config: ConfigView,
    repository: RepositoryView,
) -> Seq<Seq<char>> {
    heading_lines(kind, context, config, repository) + condition_lines(kind, config, repository)
        + seq![Seq::<char>::empty(), "[Service]"@] + environment_lines(repository) + action_lines(
        kind,
        context,
        config,
        repository,
    )
}

/// The text of a unit file: each line, ended by a newline.
pub open spec fn unit_text(lines: Seq<Seq<char>>) -> Seq<char>
    decreases lines.len(),
{
    if lines.len() == 0 {
        Seq::empty()
    } else {
        unit_text(lines.drop_last()) + lines.last() + "\n"@
    }
}

/// The text of the unit of one kind for one repository.
pub open spec fn unit_content(
    kind: UnitKind,
    context: ContextView,
    config: ConfigView,
    repository: RepositoryView,
) -> Seq<char> {
    unit_text(unit_lines(kind, context, config, repository))
}

/// A line is in `first + second` exactly if it is in one of the two.
proof fn lemma_contains_in_concatenation(
    first: Seq<Seq<char>>,
    second: Seq<Seq<char>>,
    line: Seq<char>,
)
    ensures
        (first + second).contains(line) <==> first.contains(line) || second.contains(line),
{
    let both = first + second;
    if both.contains(line) {
        let i = choose|i: int| 0 <= i < both.len() && both[i] == line;
        if i < first.len() {
            assert(first[i] == line);
        } else {
            assert(second[i - first.len()] == line);
        }
    }
    if first.contains(line) {
        let i = choose|i: int| 0 <= i < first.len() && first[i] == line;
        assert(both[i] == line);
    }
    if second.contains(line) {
        let i = choose|i: int| 0 <= i < second.len() && second[i] == line;
        assert(both[first.len() + i] == line);
    }
}

/// Every unit ends with its action: the repository is unlocked right
/// before the command runs, and the last two lines put the unit at low CPU
/// priority and in the idle I/O class. In a backup unit the line after the
/// command counts exit status 3 as success.
pub proof fn lemma_unit_ends_with_action(
    kind: UnitKind,
    context: ContextView,
    config: ConfigView,
    repository: RepositoryView,
)
    ensures
        ({
            let lines = unit_lines(kind, context, config, repository);
            let command = exec_start_line(kind, context, config, repository);
            let last = lines.len() - 1;
            &&& lines.len() >= 12
            &&& lines[last] == "IOSchedulingClass=idle"@
            &&& lines[last - 1] == "Nice=10"@
            &&& kind is Backup ==> {
                &&& lines[last - 2] == "SuccessExitStatus=3"@
                &&& lines[last - 3] == command
                &&& lines[last - 4] == "ExecStartPre=restic unlock"@
                &&& lines[last - 5] == "Type=oneshot"@
            }
            &&& !(kind is Backup) ==> {
                &&& lines[last - 2] == command
                &&& lines[last - 3] == "ExecStartPre=restic unlock"@
                &&& lines[last - 4] == "Type=oneshot"@
            }
        }),
{
    let before = heading_lines(kind, context, config, repository) + condition_lines(
        kind,
        config,
        repository,
    ) + seq![Seq::<char>::empty(), "[Service]"@] + environment_lines(repository);
    let action = action_lines(kind, context, config, repository);
    let lines = unit_lines(kind, context, config, repository);
    assert(lines == before + action);
    assert(before.len() >= 7);
    let start = before.len() as int;
    assert forall|i: int| 0 <= i < action.len() implies lines[start + i] == action[i] by {}
    if kind is Backup {
        assert(action.len() == 6);
        assert(lines[start + 5] == action[5]);
        assert(lines[start + 4] == action[4]);
        assert(lines[start + 3] == action[3]);
        assert(lines[start + 2] == action[2]);
        assert(lines[start + 1] == action[1]);
        assert(lines[start + 0] == action[0]);
    } else {
        assert(action.len() == 5);
        assert(lines[start + 4] == action[4]);
        assert(lines[start + 3] == action[3]);
        assert(lines[start + 2] == action[2]);
        assert(lines[start + 1] == action[1]);
        assert(lines[start + 0] == action[0]);
    }
}

/// Every unit of a local repository runs only where the repository
/// exists, whatever its kind; a backup unit also asks for its data source,
/// in the line before. The conditions follow the heading directly.
pub proof fn lemma_units_state_their_conditions(
    kind: UnitKind,
    context: ContextView,
    config: ConfigView,
    repository: RepositoryView,
)
    ensures
        ({
            let lines = unit_lines(kind, context, config, repository);
            let first = if kind is Backup {
                5int
            } else {
                4int
            };
            &&& kind is Backup ==> lines[4] == condition_line(config.source)
            &&& is_local(repository.location) ==> {
                &&& lines[first] == condition_line(repository.location)
                &&& lines[first + 1] == Seq::<char>::empty()
                &&& lines[first + 2] == "[Service]"@
            }
            &&& !is_local(repository.location) ==> {
                &&& lines[first] == Seq::<char>::empty()
                &&& lines[first + 1] == "[Service]"@
            }
        }),
{
    let heading = heading_lines(kind, context, config, repository);
    let conditions = condition_lines(kind, config, repository);
    let section = seq![Seq::<char>::empty(), "[Service]"@];
    let lines = unit_lines(kind, context, config, repository);
    assert(heading.len() == 4);
    assert forall|i: int| 0 <= i < conditions.len() implies lines[4 + i] == conditions[i] by {}
    assert forall|i: int| 0 <= i < section.len() implies lines[4 + conditions.len() + i]
        == section[i] by {}
    let after = 4 + conditions.len() as int;
    assert(lines[after + 0] == section[0]);
    assert(lines[after + 1] == section[1]);
    if conditions.len() > 0 {
        assert(lines[4int] == conditions[0]);
    }
    if conditions.len() > 1 {
        assert(lines[5int] == conditions[1]);
    }
}

/// A unit counts exit status 3 as success exactly if it is a backup unit,
/// whatever the configuration holds.
pub proof fn lemma_exit_status_3_succeeds_in_backup_only(
    kind: UnitKind,
    context: ContextView,
    config: ConfigView,
    repository: RepositoryView,
)
    ensures
        unit_lines(kind, context, config, repository).contains("SuccessExitStatus=3"@) <==> kind
            is Backup,
{
    let clause = "SuccessExitStatus=3"@;
    let heading = heading_lines(kind, context, config, repository);
    let conditions = condition_lines(kind, config, repository);
    let section = seq![Seq::<char>::empty(), "[Service]"@];
    let environment = environment_lines(repository);
    let action = action_lines(kind, context, config, repository);
    let lines = unit_lines(kind, context, config, repository);
    lemma_contains_in_concatenation(heading, conditions, clause);
    lemma_contains_in_concatenation(heading + conditions, section, clause);
    lemma_contains_in_concatenation(heading + conditions + section, environment, clause);
    lemma_contains_in_concatenation(
        heading + conditions + section + environment,
        action,
        clause,
    );
    if kind is Backup {
        assert(action[3] == clause);
    } else {
        reveal_strlit("SuccessExitStatus=3");
        reveal_strlit("# generated by ");
        reveal_strlit("[Unit]");
        reveal_strlit("Description=forget ");
        reveal_strlit("Description=Prune ");
        reveal_strlit("SourcePath=");
        reveal_strlit("ConditionPathExists=");
        reveal_strlit("[Service]");
        reveal_strlit("Environment=");
        reveal_strlit("Type=oneshot");
        reveal_strlit("ExecStartPre=restic unlock");
        reveal_strlit("ExecStart=");
        reveal_strlit("ExecStart=restic prune");
        reveal_strlit("Nice=10");
        reveal_strlit("IOSchedulingClass=idle");
        assert(clause[0] == 'S' && clause[1] == 'u');
        assert forall|i: int| 0 <= i < heading.len() implies heading[i] != clause by {
            assert(heading[0][0] == '#');
            assert(heading[1][0] == '[');
            assert(heading[2][0] == 'D');
            assert(heading[3][1] == 'o');
        }
        assert forall|i: int| 0 <= i < conditions.len() implies conditions[i] != clause by {
            assert(conditions[i] == condition_line(repository.location));
            assert(conditions[i][0] == 'C');
        }
        assert forall|i: int| 0 <= i < section.len() implies section[i] != clause by {
            assert(section[0].len() == 0);
            assert(section[1][0] == '[');
        }
        let password_file = optional_environment("RESTIC_PASSWORD_FILE"@, repository.password_file);
        let password_command = optional_environment(
            "RESTIC_PASSWORD_COMMAND"@,
            repository.password_command,
        );
        let access_key = optional_environment("AWS_ACCESS_KEY"@, repository.aws_access_key);
        let secret_key = optional_environment(
            "AWS_SECRET_ACCESS_KEY"@,
            repository.aws_secret_access_key,
        );
        let location = seq![environment_line("RESTIC_REPOSITORY"@, repository.location)];
        assert forall|name: Seq<char>, value: Seq<char>|
            #[trigger] environment_line(name, value) != clause by {
            assert(environment_line(name, value)[0] == 'E');
        }
        lemma_contains_in_concatenation(location, password_file, clause);
        lemma_contains_in_concatenation(location + password_file, password_command, clause);
        lemma_contains_in_concatenation(
            location + password_file + password_command,
            access_key,
            clause,
        );
        lemma_contains_in_concatenation(
            location + password_file + password_command + access_key,
            secret_key,
            clause,
        );
        assert(!location.contains(clause));
        assert(!password_file.contains(clause));
        assert(!password_command.contains(clause));
        assert(!access_key.contains(clause));
        assert(!secret_key.contains(clause));
        assert(!environment.contains(clause));
        assert forall|i: int| 0 <= i < action.len() implies action[i] != clause by {
            assert(action[0][0] == 'T');
            assert(action[1][0] == 'E');
            assert(action[2][0] == 'E');
            assert(action[3][0] == 'N');
            assert(action[4][0] == 'I');
        }
    }
}

/// The texts of `first` followed by those of `second`.
proof fn lemma_texts_of_concatenation(first: Seq<String>, second: Seq<String>)
    ensures
        texts(first + second) == texts(first) + texts(second),
{
    assert(texts(first + second) =~= texts(first) + texts(second));
}

/// `prefix` followed by `value`.
fn prefixed(prefix: &str, value: &str) -> (result: String)
    ensures
        result@ == prefix@ + value@,
{
    let mut result = String::from_str(prefix);
    result.append(value);
    result
}

/// The host that snapshots are recorded under.
fn host_of<'a>(context: &'a Context, config: &'a Config) -> (result: &'a str)
    ensures
        result@ == snapshot_host(context@, config@),
{
    match &config.host {
        Some(host) => host.as_str(),
        None => context.hostname.as_str(),
    }
}

fn description(kind: UnitKind, config: &Config, repository: &RepositoryConfig) -> (result: String)
    ensures
        result@ == description_line(kind, config@, repository@),
{
    match kind {
        UnitKind::Backup => {
            let mut line = String::from_str("Description=backup ");
            line.append(config.source.as_str());
            line.append(" to ");
            line.append(repository.location.as_str());
            line
        },
        UnitKind::Forget => {
            let mut line = String::from_str("Description=forget ");
            line.append(config.source.as_str());
            line.append(" from ");
            line.append(repository.location.as_str());
            line
        },
        UnitKind::Prune => prefixed("Description=Prune ", repository.location.as_str()),
    }
}

fn heading(
    kind: UnitKind,
    context: &Context,
    config: &Config,
    repository: &RepositoryConfig,
) -> (lines: Vec<String>)
    ensures
        texts(lines@) == heading_lines(kind, context@, config@, repository@),
{
    let mut lines: Vec<String> = Vec::new();
    lines.push(prefixed("# generated by ", context.program_name.as_str()));
    lines.push(String::from_str("[Unit]"));
    lines.push(description(kind, config, repository));
    lines.push(prefixed("SourcePath=", context.config_path.as_str()));
    assert(texts(lines@) =~= heading_lines(kind, context@, config@, repository@));
    lines
}

fn conditions(kind: UnitKind, config: &Config, repository: &RepositoryConfig) -> (lines: Vec<
    String,
>)
    ensures
        texts(lines@) == condition_lines(kind, config@, repository@),
{
    let mut lines: Vec<String> = Vec::new();
    match kind {
        UnitKind::Backup => {
            lines.push(prefixed("ConditionPathExists=", config.source.as_str()));
        },
        _ => {},
    }
    if is_local_repository(repository.location.as_str()) {
        lines.push(prefixed("ConditionPathExists=", repository.location.as_str()));
    }
    assert(texts(lines@) =~= condition_lines(kind, config@, repository@));
    lines
}

/// Adds the line of an optional environment variable, if it has a value.
fn push_environment(lines: &mut Vec<String>, name: &str, value: &Option<String>)
    ensures
        texts(final(lines)@) == texts(old(lines)@) + optional_environment(name@, text_of(*value)),
{
    if let Some(text) = value {
        let mut line = String::from_str("Environment=");
        line.append(name);
        line.append("=\"");
        line.append(text.as_str());
        line.append("\"");
        lines.push(line);
    }
    assert(texts(lines@) =~= texts(old(lines)@) + optional_environment(name@, text_of(*value)));
}

fn environment(repository: &RepositoryConfig) -> (lines: Vec<String>)
    ensures
        texts(lines@) == environment_lines(repository@),
{
    let mut lines: Vec<String> = Vec::new();
    let mut first = String::from_str("Environment=");
    first.append("RESTIC_REPOSITORY");
    first.append("=\"");
    first.append(repository.location.as_str());
    first.append("\"");
    lines.push(first);
    assert(texts(lines@) =~= seq![
        environment_line("RESTIC_REPOSITORY"@, repository@.location),
    ]);
    push_environment(&mut lines, "RESTIC_PASSWORD_FILE", &repository.password_file);
    push_environment(&mut lines, "RESTIC_PASSWORD_COMMAND", &repository.password_command);
    push_environment(&mut lines, "AWS_ACCESS_KEY", &repository.aws_access_key);
    push_environment(&mut lines, "AWS_SECRET_ACCESS_KEY", &repository.aws_secret_access_key);
    lines
}

fn exec_start(
    kind: UnitKind,
    context: &Context,
    config: &Config,
    repository: &RepositoryConfig,
) -> (result: String)
    ensures
        result@ == exec_start_line(kind, context@, config@, repository@),
{
    match kind {
        UnitKind::Backup => {
            let command = backup_cmd(
                config.source.as_str(),
                host_of(context, config),
                config.exclude.as_slice(),
            );
            prefixed("ExecStart=", command.as_str())
        },
        UnitKind::Forget => {
            let command = forget_cmd(
                host_of(context, config),
                config.source.as_str(),
                repository,
            );
            prefixed("ExecStart=", command.as_str())
        },
        UnitKind::Prune => String::from_str("ExecStart=restic prune"),
    }
}

fn action(
    kind: UnitKind,
    context: &Context,
    config: &Config,
    repository: &RepositoryConfig,
) -> (lines: Vec<String>)
    ensures
        texts(lines@) == action_lines(kind, context@, config@, repository@),
{
    let mut lines: Vec<String> = Vec::new();
    lines.push(String::from_str("Type=oneshot"));
    lines.push(String::from_str("ExecStartPre=restic unlock"));
    lines.push(exec_start(kind, context, config, repository));
    match kind {
        UnitKind::Backup => {
            lines.push(String::from_str("SuccessExitStatus=3"));
        },
        _ => {},
    }
    lines.push(String::from_str("Nice=10"));
    lines.push(String::from_str("IOSchedulingClass=idle"));
    assert(texts(lines@) =~= action_lines(kind, context@, config@, repository@));
    lines
}

/// Renders the lines of the unit of one kind for one repository.
///
/// There is no forget or prune unit for a repository without a retention
/// policy: the result is then `None`, not an empty unit.
pub fn render_unit(
    kind: UnitKind,
    context: &Context,
    config: &Config,
    repository: &RepositoryConfig,
) -> (result: Option<Vec<String>>)
    ensures
        result is Some <==> unit_applies(kind, repository@),
        result matches Some(lines) ==> texts(lines@) == unit_lines(
            kind,
            context@,
            config@,
            repository@,
        ),
{
    let applies = match kind {
        UnitKind::Backup => true,
        _ => repository.has_forget_policy(),
    };
    if !applies {
        return None;
    }
    let mut lines = heading(kind, context, config, repository);
    let ghost first = texts(lines@);
    let mut part = conditions(kind, config, repository);
    let ghost second = texts(part@);
    proof {
        lemma_texts_of_concatenation(lines@, part@);
    }
    lines.append(&mut part);
    assert(texts(lines@) == first + second);
    lines.push(String::new());
    lines.push(String::from_str("[Service]"));
    let ghost third = seq![Seq::<char>::empty(), "[Service]"@];
    assert(texts(lines@) =~= first + second + third);
    let mut part = environment(repository);
    let ghost fourth = texts(part@);
    proof {
        lemma_texts_of_concatenation(lines@, part@);
    }
    lines.append(&mut part);
    assert(texts(lines@) == first + second + third + fourth);
    let mut part = action(kind, context, config, repository);
    let ghost fifth = texts(part@);
    proof {
        lemma_texts_of_concatenation(lines@, part@);
    }
    lines.append(&mut part);
    assert(texts(lines@) == first + second + third + fourth + fifth);
    Some(lines)
}

/// Puts the lines of a unit together, each ended by a newline.
pub fn text_of_lines(lines: &Vec<String>) -> (result: String)
    ensures
        result@ == unit_text(texts(lines@)),
{
    let mut result = String::new();
    let mut index: usize = 0;
    while index < lines.len()
        invariant
            index <= lines.len(),
            result@ == unit_text(texts(lines@).take(index as int)),
        decreases lines.len() - index,
    {
        let ghost after = texts(lines@).take(index + 1);
        assert(after.drop_last() =~= texts(lines@).take(index as int));
        assert(after.last() == lines@[index as int]@);
        result.append(lines[index].as_str());
        result.append("\n");
        assert(result@ =~= unit_text(after));
        index += 1;
    }
    assert(texts(lines@).take(lines.len() as int) =~= texts(lines@));
    result
}

/// The text of the unit that backs up the data source to `repository`.
pub fn generate_backup_service(
    context: &Context,
    config: &Config,
    repository: &RepositoryConfig,
) -> (result: String)
    ensures
        result@ == unit_content(UnitKind::Backup, context@, config@, repository@),
{
    let lines = render_unit(UnitKind::Backup, context, config, repository).unwrap();
    text_of_lines(&lines)
}

/// The text of the unit that applies the retention policy of `repository`,
/// if it has one.
pub fn generate_forget_service(
    context: &Context,
    config: &Config,
    repository: &RepositoryConfig,
) -> (result: Option<String>)
    ensures
        result is Some <==> repository@.has_forget_policy(),
        result matches Some(text) ==> text@ == unit_content(
            UnitKind::Forget,
            context@,
            config@,
            repository@,
        ),
{
    match render_unit(UnitKind::Forget, context, config, repository) {
        Some(lines) => Some(text_of_lines(&lines)),
        None => None,
    }
}

/// The text of the unit that prunes `repository`, if it has a retention
/// policy.
pub fn generate_prune_service(
    context: &Context,
    config: &Config,
    repository: &RepositoryConfig,
) -> (result: Option<String>)
    ensures
        result is Some <==> repository@.has_forget_policy(),
        result matches Some(text) ==> text@ == unit_content(
            UnitKind::Prune,
            context@,
            config@,
            repository@,
        ),
{
    match render_unit(UnitKind::Prune, context, config, repository) {
        Some(lines) => Some(text_of_lines(&lines)),
        None => None,
    }
}

} // verus!
