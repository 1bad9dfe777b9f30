//! The units of a whole configuration.
//!
//! Every repository gets a backup unit. A repository with a retention
//! policy also gets a forget unit and a prune unit, always both. The units
//! come out in the order in which the repositories are declared.

use crate::config::{Config, ConfigView, RepositoryConfig, RepositoryView};
use crate::unit::{
    generate_backup_service, generate_forget_service, generate_prune_service, unit_applies,
    unit_content, Context, ContextView, UnitKind,
};
use vstd::prelude::*;

verus! {

/// A unit that is to be written: its kind, the name of its file and the
/// text of the file.
#[derive(Debug)]
pub struct UnitFile {
    pub kind: UnitKind,
    pub name: String,
    pub content: String,
}

/// What a [`UnitFile`] holds, as mathematical values.
pub struct UnitFileView {
    pub kind: UnitKind,
    pub name: Seq<char>,
    pub content: Seq<char>,
}

impl View for UnitFile {
    type V = UnitFileView;

    open spec fn view(&self) -> UnitFileView {
        UnitFileView { kind: self.kind, name: self.name@, content: self.content@ }
    }
}

/// The values of a list of unit files.
pub open spec fn unit_file_views(files: Seq<UnitFile>) -> Seq<UnitFileView> {
    Seq::new(files.len(), |i: int| files[i]@)
}

/// The word that stands for a kind in a file name.
pub open spec fn kind_name(kind: UnitKind) -> Seq<char> {
    match kind {
        UnitKind::Backup => "backup"@,
        UnitKind::Forget => "forget"@,
        UnitKind::Prune => "prune"@,
    }
}

/// The name of the file that holds the unit of one kind for the repository
/// of the given name.
pub open spec fn unit_file_name(repository_name: Seq<char>, kind: UnitKind) -> Seq<char> {
    "restic-"@ + repository_name + "-"@ + kind_name(kind) + ".service"@
}

/// The unit file of one kind for one repository.
pub open spec fn unit_file(
    kind: UnitKind,
    context: ContextView,
    config: ConfigView,
    repository: RepositoryView,
) -> UnitFileView {
    UnitFileView {
        kind,
        name: unit_file_name(repository.name, kind),
        content: unit_content(kind, context, config, repository),
    }
}

/// The unit files of one repository: the backup unit and, with a retention
/// policy, the forget unit and the prune unit.
pub open spec fn repository_units(
    context: ContextView,
    config: ConfigView,
    repository: RepositoryView,
) -> Seq<UnitFileView> {
    if repository.has_forget_policy() {
        seq![
            unit_file(UnitKind::Backup, context, config, repository),
            unit_file(UnitKind::Forget, context, config, repository),
            unit_file(UnitKind::Prune, context, config, repository),
        ]
    } else {
        seq![unit_file(UnitKind::Backup, context, config, repository)]
    }
}

/// The unit files of a list of repositories, repository after repository.
pub open spec fn units_of(
    context: ContextView,
    config: ConfigView,
    repositories: Seq<RepositoryView>,
) -> Seq<UnitFileView>
    decreases repositories.len(),
{
    if repositories.len() == 0 {
        Seq::empty()
    } else {
        units_of(context, config, repositories.drop_last()) + repository_units(
            context,
            config,
            repositories.last(),
        )
    }
}

/// Every unit file that a configuration gives rise to.
pub open spec fn generated_units(context: ContextView, config: ConfigView) -> Seq<UnitFileView> {
    units_of(context, config, config.repositories)
}

/// Forget and prune units come together or not at all: a repository with a
/// retention policy yields its backup, forget and prune unit, in this
/// order, and a repository without one yields its backup unit alone.
pub proof fn lemma_retention_decides_units(
    context: ContextView,
    config: ConfigView,
    repository: RepositoryView,
)
    ensures
        ({
            let units = repository_units(context, config, repository);
            &&& units.len() >= 1
            &&& units[0] == unit_file(UnitKind::Backup, context, config, repository)
            &&& repository.has_forget_policy() ==> {
                &&& units.len() == 3
                &&& units[1] == unit_file(UnitKind::Forget, context, config, repository)
                &&& units[2] == unit_file(UnitKind::Prune, context, config, repository)
            }
            &&& !repository.has_forget_policy() ==> {
                &&& units.len() == 1
                &&& forall|i: int| 0 <= i < units.len() ==> (#[trigger] units[i]).kind is Backup
            }
        }),
{
}

/// File names do not collide: two units have the same file name only if
/// they are of the same kind and their repositories have the same name.
pub proof fn lemma_unit_file_names_differ(
    first: Seq<char>,
    first_kind: UnitKind,
    second: Seq<char>,
    second_kind: UnitKind,
)
    requires
        first != second || first_kind != second_kind,
    ensures
        unit_file_name(first, first_kind) != unit_file_name(second, second_kind),
{
    reveal_strlit("restic-");
    reveal_strlit("-");
    reveal_strlit("backup");
    reveal_strlit("forget");
    reveal_strlit("prune");
    reveal_strlit(".service");
    let one = unit_file_name(first, first_kind);
    let two = unit_file_name(second, second_kind);
    let one_kind = kind_name(first_kind);
    let two_kind = kind_name(second_kind);
    assert(one.len() == 7 + first.len() + 1 + one_kind.len() + 8);
    assert(two.len() == 7 + second.len() + 1 + two_kind.len() + 8);
    if one == two {
        // The character before `.service` is the last of the kind's word.
        assert(one[one.len() - 9] == one_kind[one_kind.len() - 1]);
        assert(two[two.len() - 9] == two_kind[two_kind.len() - 1]);
        assert(first_kind == second_kind);
        assert(first.len() == second.len());
        assert forall|i: int| 0 <= i < first.len() implies first[i] == second[i] by {
            assert(one[7 + i] == first[i]);
            assert(two[7 + i] == second[i]);
        }
        assert(first =~= second);
    }
}

/// Every generated unit comes from a repository of the list, and is of a
/// kind that applies to that repository.
pub proof fn lemma_unit_has_origin(
    context: ContextView,
    config: ConfigView,
    repositories: Seq<RepositoryView>,
    position: int,
) -> (origin: (int, UnitKind))
    requires
        0 <= position < units_of(context, config, repositories).len(),
    ensures
        0 <= origin.0 < repositories.len(),
        unit_applies(origin.1, repositories[origin.0]),
        units_of(context, config, repositories)[position] == unit_file(
            origin.1,
            context,
            config,
            repositories[origin.0],
        ),
    decreases repositories.len(),
{
    let earlier = units_of(context, config, repositories.drop_last());
    let last = repository_units(context, config, repositories.last());
    if position < earlier.len() {
        lemma_unit_has_origin(context, config, repositories.drop_last(), position)
    } else {
        let offset = position - earlier.len();
        assert(units_of(context, config, repositories)[position] == last[offset]);
        let kind = if offset == 0 {
            UnitKind::Backup
        } else if offset == 1 {
            UnitKind::Forget
        } else {
            UnitKind::Prune
        };
        (repositories.len() - 1, kind)
    }
}

/// Every unit that applies to a repository of the list is generated.
pub proof fn lemma_applicable_unit_is_generated(
    context: ContextView,
    config: ConfigView,
    repositories: Seq<RepositoryView>,
    index: int,
    kind: UnitKind,
)
    requires
        0 <= index < repositories.len(),
        unit_applies(kind, repositories[index]),
    ensures
        units_of(context, config, repositories).contains(
            unit_file(kind, context, config, repositories[index]),
        ),
    decreases repositories.len(),
{
    let all = units_of(context, config, repositories);
    let earlier = units_of(context, config, repositories.drop_last());
    let last = repository_units(context, config, repositories.last());
    let wanted = unit_file(kind, context, config, repositories[index]);
    if index < repositories.len() - 1 {
        lemma_applicable_unit_is_generated(
            context,
            config,
            repositories.drop_last(),
            index,
            kind,
        );
        let at = choose|i: int| 0 <= i < earlier.len() && earlier[i] == wanted;
        assert(all[at] == wanted);
    } else {
        let offset: int = match kind {
            UnitKind::Backup => 0,
            UnitKind::Forget => 1,
            UnitKind::Prune => 2,
        };
        assert(last[offset] == wanted);
        assert(all[earlier.len() + offset] == wanted);
    }
}

/// For every repository that has a retention policy the forget unit and
/// the prune unit are generated, both of them; the backup unit is
/// generated for every repository.
pub proof fn lemma_policy_yields_retention_units(
    context: ContextView,
    config: ConfigView,
    index: int,
)
    requires
        0 <= index < config.repositories.len(),
    ensures
        generated_units(context, config).contains(
            unit_file(UnitKind::Backup, context, config, config.repositories[index]),
        ),
        config.repositories[index].has_forget_policy() ==> generated_units(
            context,
            config,
        ).contains(unit_file(UnitKind::Forget, context, config, config.repositories[index]))
            && generated_units(context, config).contains(
            unit_file(UnitKind::Prune, context, config, config.repositories[index]),
        ),
{
    lemma_applicable_unit_is_generated(
        context,
        config,
        config.repositories,
        index,
        UnitKind::Backup,
    );
    if config.repositories[index].has_forget_policy() {
        lemma_applicable_unit_is_generated(
            context,
            config,
            config.repositories,
            index,
            UnitKind::Forget,
        );
        lemma_applicable_unit_is_generated(
            context,
            config,
            config.repositories,
            index,
            UnitKind::Prune,
        );
    }
}

/// For a repository without a retention policy no file is generated under
/// the name of its forget unit or of its prune unit. A file name stands for
/// a repository's name, so this is stated of names that no repository with
/// a retention policy shares.
pub proof fn lemma_no_policy_yields_no_retention_units(
    context: ContextView,
    config: ConfigView,
    index: int,
)
    requires
        0 <= index < config.repositories.len(),
        forall|other: int|
            0 <= other < config.repositories.len() && (#[trigger] config.repositories[other]).name
                == config.repositories[index].name
                ==> !config.repositories[other].has_forget_policy(),
    ensures
        forall|position: int|
            0 <= position < generated_units(context, config).len() ==> {
                let unit = #[trigger] generated_units(context, config)[position];
                &&& unit.name != unit_file_name(config.repositories[index].name, UnitKind::Forget)
                &&& unit.name != unit_file_name(config.repositories[index].name, UnitKind::Prune)
            },
{
    let name = config.repositories[index].name;
    let units = generated_units(context, config);
    assert forall|position: int| 0 <= position < units.len() implies {
        let unit = #[trigger] units[position];
        &&& unit.name != unit_file_name(name, UnitKind::Forget)
        &&& unit.name != unit_file_name(name, UnitKind::Prune)
    } by {
        let origin = lemma_unit_has_origin(context, config, config.repositories, position);
        let from = config.repositories[origin.0];
        // A unit of a repository of this name is a backup unit: no such
        // repository has a retention policy.
        assert(from.name == name ==> origin.1 is Backup);
        lemma_unit_file_names_differ(from.name, origin.1, name, UnitKind::Forget);
        lemma_unit_file_names_differ(from.name, origin.1, name, UnitKind::Prune);
    }
}

/// Generation is repeatable: what is generated depends on nothing but the
/// values that the context and the configuration hold. Two runs on the
/// same values yield the same files, with the same names and the same text,
/// in the same order.
pub proof fn lemma_generation_is_repeatable(
    first_context: Context,
    first_config: Config,
    first: Seq<UnitFile>,
    second_context: Context,
    second_config: Config,
    second: Seq<UnitFile>,
)
    requires
        first_context@ == second_context@,
        first_config@ == second_config@,
        unit_file_views(first) == generated_units(first_context@, first_config@),
        unit_file_views(second) == generated_units(second_context@, second_config@),
    ensures
        first.len() == second.len(),
        forall|i: int|
            0 <= i < first.len() ==> {
                &&& (#[trigger] first[i]).kind == second[i].kind
                &&& first[i].name@ == second[i].name@
                &&& first[i].content@ == second[i].content@
            },
{
    assert(unit_file_views(first) == unit_file_views(second));
    assert(unit_file_views(first).len() == first.len());
    assert(unit_file_views(second).len() == second.len());
    assert forall|i: int| 0 <= i < first.len() implies {
        &&& (#[trigger] first[i]).kind == second[i].kind
        &&& first[i].name@ == second[i].name@
        &&& first[i].content@ == second[i].content@
    } by {
        assert(unit_file_views(first)[i] == first[i]@);
        assert(unit_file_views(second)[i] == second[i]@);
    }
}

/// The name of the file that holds the unit of `kind` for the repository
/// called `repository_name`.
pub fn unit_file_name_of(repository_name: &str, kind: UnitKind) -> (result: String)
    ensures
        result@ == unit_file_name(repository_name@, kind),
{
    let mut result = String::from_str("restic-");
    result.append(repository_name);
    result.append("-");
    match kind {
        UnitKind::Backup => result.append("backup"),
        UnitKind::Forget => result.append("forget"),
        UnitKind::Prune => result.append("prune"),
    }
    result.append(".service");
    result
}

/// Generates the unit files of one repository.
pub fn generate_repository_units(
    context: &Context,
    config: &Config,
    repository: &RepositoryConfig,
) -> (result: Vec<UnitFile>)
    ensures
        unit_file_views(result@) == repository_units(context@, config@, repository@),
{
    let mut files: Vec<UnitFile> = Vec::new();
    files.push(
        UnitFile {
            kind: UnitKind::Backup,
            name: unit_file_name_of(repository.name.as_str(), UnitKind::Backup),
            content: generate_backup_service(context, config, repository),
        },
    );
    if repository.has_forget_policy() {
        let forget = generate_forget_service(context, config, repository).unwrap();
        let prune = generate_prune_service(context, config, repository).unwrap();
        files.push(
            UnitFile {
                kind: UnitKind::Forget,
                name: unit_file_name_of(repository.name.as_str(), UnitKind::Forget),
                content: forget,
            },
        );
        files.push(
            UnitFile {
                kind: UnitKind::Prune,
                name: unit_file_name_of(repository.name.as_str(), UnitKind::Prune),
                content: prune,
            },
        );
    }
    assert(unit_file_views(files@) =~= repository_units(context@, config@, repository@));
    files
}

/// Generates every unit file of a configuration, in the order in which the
/// repositories are declared.
pub fn generate_units(context: &Context, config: &Config) -> (result: Vec<UnitFile>)
    ensures
        unit_file_views(result@) == generated_units(context@, config@),
{
    let mut files: Vec<UnitFile> = Vec::new();
    let mut index: usize = 0;
    assert(unit_file_views(files@) =~= Seq::<UnitFileView>::empty());
    while index < config.repositories.len()
        invariant
            index <= config.repositories.len(),
            unit_file_views(files@) == units_of(
                context@,
                config@,
                config@.repositories.take(index as int),
            ),
        decreases config.repositories.len() - index,
    {
        let ghost done = config@.repositories.take(index as int);
        let ghost next = config@.repositories.take(index + 1);
        assert(next.drop_last() =~= done);
        assert(next.last() == config.repositories@[index as int]@);
        let mut part = generate_repository_units(context, config, &config.repositories[index]);
        assert(unit_file_views(files@ + part@) =~= unit_file_views(files@) + unit_file_views(
            part@,
        ));
        files.append(&mut part);
        index += 1;
    }
    assert(config@.repositories.take(config.repositories.len() as int) =~= config@.repositories);
    files
}

} // verus!
