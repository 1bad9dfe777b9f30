//! The restic command lines that the units execute.
//!
//! A command is a list of tokens joined by single spaces. A token that
//! carries a value puts it between double quotes as it is: a quote inside a
//! value is not escaped.

use crate::config::{count_of, text_of, RepositoryConfig, RepositoryView};
use crate::text::{decimal, join, joined, texts, to_decimal};
use vstd::prelude::*;
use vstd::seq_lib::lemma_concat_associative;

verus! {

/// An option with its value: the name, `=`, and the value in double quotes.
pub open spec fn option_token(name: Seq<char>, value: Seq<char>) -> Seq<char> {
    name + "=\""@ + value + "\""@
}

/// One `--exclude` token for each pattern, in the order of the patterns.
pub open spec fn exclude_tokens(patterns: Seq<Seq<char>>) -> Seq<Seq<char>> {
    Seq::new(patterns.len(), |i: int| option_token("--exclude"@, patterns[i]))
}

/// The tokens of the backup command: the tool, the subcommand, the host,
/// the excludes, and the source path last and unquoted.
pub open spec fn backup_tokens(source: Seq<char>, host: Seq<char>, exclude: Seq<Seq<char>>) -> Seq<
    Seq<char>,
> {
    seq!["restic"@, "backup"@, option_token("--host"@, host)] + exclude_tokens(exclude)
        + seq![source]
}

/// The backup command line.
pub open spec fn backup_command(source: Seq<char>, host: Seq<char>, exclude: Seq<Seq<char>>) -> Seq<
    char,
> {
    joined(backup_tokens(source, host, exclude), " "@)
}

/// The token of a retention rule that holds a count, if the rule is set.
pub open spec fn keep_count(name: Seq<char>, value: Option<nat>) -> Seq<Seq<char>> {
    match value {
        Some(count) => seq![option_token(name, decimal(count))],
        None => seq![],
    }
}

/// The token of a retention rule that holds text, if the rule is set.
pub open spec fn keep_text(name: Seq<char>, value: Option<Seq<char>>) -> Seq<Seq<char>> {
    match value {
        Some(text) => seq![option_token(name, text)],
        None => seq![],
    }
}

/// The tokens of the retention rules that are set, always in this order.
pub open spec fn keep_tokens(repository: RepositoryView) -> Seq<Seq<char>> {
    keep_count("--keep-last"@, repository.keep_last) + keep_count(
        "--keep-hourly"@,
        repository.keep_hourly,
    ) + keep_count("--keep-daily"@, repository.keep_daily) + keep_count(
        "--keep-weekly"@,
        repository.keep_weekly,
    ) + keep_count("--keep-monthly"@, repository.keep_monthly) + keep_count(
        "--keep-yearly"@,
        repository.keep_yearly,
    ) + keep_text("--keep-tag"@, repository.keep_tag) + keep_text(
        "--keep-within"@,
        repository.keep_within,
    )
}

/// The tokens of the forget command: the tool, the subcommand, the host,
/// the path of the snapshots, and the retention rules.
pub open spec fn forget_tokens(host: Seq<char>, path: Seq<char>, repository: RepositoryView) -> Seq<
    Seq<char>,
> {
    seq!["restic"@, "forget"@, option_token("--host"@, host), option_token("--path"@, path)]
        + keep_tokens(repository)
}

/// The forget command line.
pub open spec fn forget_command(host: Seq<char>, path: Seq<char>, repository: RepositoryView) -> Seq<
    char,
> {
    joined(forget_tokens(host, path, repository), " "@)
}

/// Builds the token of an option that carries a value.
fn option(name: &str, value: &str) -> (result: String)
    ensures
        result@ == option_token(name@, value@),
{
    let mut result = String::from_str(name);
    result.append("=\"");
    result.append(value);
    result.append("\"");
    result
}

/// Adds the token of a count rule to `tokens` if the rule is set.
fn push_count(tokens: &mut Vec<String>, name: &str, value: Option<usize>)
    ensures
        texts(final(tokens)@) == texts(old(tokens)@) + keep_count(name@, count_of(value)),
{
    if let Some(count) = value {
        tokens.push(option(name, to_decimal(count).as_str()));
    }
    assert(texts(tokens@) =~= texts(old(tokens)@) + keep_count(name@, count_of(value)));
}

/// Adds the token of a text rule to `tokens` if the rule is set.
fn push_text(tokens: &mut Vec<String>, name: &str, value: &Option<String>)
    ensures
        texts(final(tokens)@) == texts(old(tokens)@) + keep_text(name@, text_of(*value)),
{
    if let Some(text) = value {
        tokens.push(option(name, text.as_str()));
    }
    assert(texts(tokens@) =~= texts(old(tokens)@) + keep_text(name@, text_of(*value)));
}

/// Adds the tokens of the retention rules that `repository` sets.
fn push_keep_tokens(tokens: &mut Vec<String>, repository: &RepositoryConfig)
    ensures
        texts(final(tokens)@) == texts(old(tokens)@) + keep_tokens(repository@),
{
    let ghost base = texts(tokens@);
    let ghost rules = repository@;
    let ghost mut set = Seq::<Seq<char>>::empty();
    assert(texts(tokens@) =~= base + set);
    push_count(tokens, "--keep-last", repository.keep_last);
    proof {
        let next = keep_count("--keep-last"@, rules.keep_last);
        lemma_concat_associative(base, set, next);
        set = set + next;
    }
    push_count(tokens, "--keep-hourly", repository.keep_hourly);
    proof {
        let next = keep_count("--keep-hourly"@, rules.keep_hourly);
        lemma_concat_associative(base, set, next);
        set = set + next;
    }
    push_count(tokens, "--keep-daily", repository.keep_daily);
    proof {
        let next = keep_count("--keep-daily"@, rules.keep_daily);
        lemma_concat_associative(base, set, next);
        set = set + next;
    }
    push_count(tokens, "--keep-weekly", repository.keep_weekly);
    proof {
        let next = keep_count("--keep-weekly"@, rules.keep_weekly);
        lemma_concat_associative(base, set, next);
        set = set + next;
    }
    push_count(tokens, "--keep-monthly", repository.keep_monthly);
    proof {
        let next = keep_count("--keep-monthly"@, rules.keep_monthly);
        lemma_concat_associative(base, set, next);
        set = set + next;
    }
    push_count(tokens, "--keep-yearly", repository.keep_yearly);
    proof {
        let next = keep_count("--keep-yearly"@, rules.keep_yearly);
        lemma_concat_associative(base, set, next);
        set = set + next;
    }
    push_text(tokens, "--keep-tag", &repository.keep_tag);
    proof {
        let next = keep_text("--keep-tag"@, rules.keep_tag);
        lemma_concat_associative(base, set, next);
        set = set + next;
    }
    push_text(tokens, "--keep-within", &repository.keep_within);
    proof {
        let next = keep_text("--keep-within"@, rules.keep_within);
        lemma_concat_associative(base, set, next);
        set = set + next;
        assert(Seq::<Seq<char>>::empty() + keep_count("--keep-last"@, rules.keep_last)
            =~= keep_count("--keep-last"@, rules.keep_last));
        assert(set == keep_tokens(rules));
    }
}

/// The command line that backs up `source` under the name of `host`,
/// leaving out what matches one of the `exclude` patterns.
pub fn backup_cmd(source: &str, host: &str, exclude: &[String]) -> (result: String)
    ensures
        result@ == backup_command(source@, host@, texts(exclude@)),
{
    let mut tokens: Vec<String> = Vec::new();
    tokens.push(String::from_str("restic"));
    tokens.push(String::from_str("backup"));
    tokens.push(option("--host", host));
    let ghost head = seq!["restic"@, "backup"@, option_token("--host"@, host@)];
    assert(texts(tokens@) =~= head);
    let mut index: usize = 0;
    while index < exclude.len()
        invariant
            index <= exclude.len(),
            texts(tokens@) == head + exclude_tokens(texts(exclude@).take(index as int)),
        decreases exclude.len() - index,
    {
        let ghost before = texts(tokens@);
        let ghost done = exclude_tokens(texts(exclude@).take(index as int));
        let token = option("--exclude", exclude[index].as_str());
        tokens.push(token);
        assert(texts(tokens@) =~= before.push(token@));
        assert(exclude_tokens(texts(exclude@).take(index + 1)) =~= done.push(token@));
        assert(before.push(token@) =~= head + done.push(token@));
        index += 1;
    }
    assert(texts(exclude@).take(exclude.len() as int) =~= texts(exclude@));
    tokens.push(String::from_str(source));
    assert(texts(tokens@) =~= backup_tokens(source@, host@, texts(exclude@)));
    join(&tokens, " ")
}

/// The command line that applies the retention rules of `repository` to the
/// snapshots that `host` made of `path`.
pub fn forget_cmd(host: &str, path: &str, repository: &RepositoryConfig) -> (result: String)
    ensures
        result@ == forget_command(host@, path@, repository@),
{
    let mut tokens: Vec<String> = Vec::new();
    tokens.push(String::from_str("restic"));
    tokens.push(String::from_str("forget"));
    tokens.push(option("--host", host));
    tokens.push(option("--path", path));
    assert(texts(tokens@) =~= seq![
        "restic"@,
        "forget"@,
        option_token("--host"@, host@),
        option_token("--path"@, path@),
    ]);
    push_keep_tokens(&mut tokens, repository);
    join(&tokens, " ")
}

} // verus!
