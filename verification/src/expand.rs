//! Path expressions: paths in which an element may stand for the value of
//! an environment variable.
//!
//! A path is taken apart at `/` where it holds one, else at `\`. An element
//! `$NAME` or `%NAME%` stands for the value of the variable `NAME`, an
//! element `~` for the value of the home variable; every other element
//! stands for itself. The elements are put together again with the
//! separator they were parted at.

use crate::error::{ErrorKind, SyncError, SyncErrorView};
use crate::systools::{get_home_dir_env_var, home_dir_env_var, lookup, Environment, Platform};
use crate::text::{
    chars_of,
    join_text,
    join_with,
    lemma_join_of_split,
    lemma_split_without_separator,
    split_on,
    split_text,
    texts,
};
use vstd::prelude::*;

verus! {

/// The character at which a path expression is taken apart.
pub open spec fn separator_of(path: Seq<char>) -> char {
    if path.contains('/') {
        '/'
    } else {
        '\\'
    }
}

/// The variable that an element of a path expression stands for, if it
/// stands for one.
pub open spec fn referenced_variable(part: Seq<char>, home_var: Seq<char>) -> Option<Seq<char>> {
    if part.len() >= 1 && part[0] == '$' {
        Some(part.subrange(1, part.len() as int))
    } else if part.len() >= 2 && part[0] == '%' && part.last() == '%' {
        Some(part.subrange(1, part.len() - 1))
    } else if part.len() == 1 && part[0] == '~' {
        Some(home_var)
    } else {
        None
    }
}

/// What an element stands for, or the name of the variable that it refers
/// to and that is not set.
pub open spec fn expanded_part(
    part: Seq<char>,
    env: Seq<(Seq<char>, Seq<char>)>,
    home_var: Seq<char>,
) -> Result<Seq<char>, Seq<char>> {
    match referenced_variable(part, home_var) {
        Some(variable) => match lookup(env, variable) {
            Some(value) => Ok(value),
            None => Err(variable),
        },
        None => Ok(part),
    }
}

/// What each element stands for, or the variable of the first element,
/// from the left, that refers to one that is not set.
pub open spec fn expanded_parts(
    parts: Seq<Seq<char>>,
    env: Seq<(Seq<char>, Seq<char>)>,
    home_var: Seq<char>,
) -> Result<Seq<Seq<char>>, Seq<char>>
    decreases parts.len(),
{
    if parts.len() == 0 {
        Ok(Seq::<Seq<char>>::empty())
    } else {
        match expanded_parts(parts.drop_last(), env, home_var) {
            Err(variable) => Err(variable),
            Ok(done) => match expanded_part(parts.last(), env, home_var) {
                Ok(value) => Ok(done.push(value)),
                Err(variable) => Err(variable),
            },
        }
    }
}

/// The path that a path expression stands for, or the name of the first
/// variable that it refers to and that is not set.
pub open spec fn normalized(
    path: Seq<char>,
    env: Seq<(Seq<char>, Seq<char>)>,
    home_var: Seq<char>,
) -> Result<Seq<char>, Seq<char>> {
    let sep = separator_of(path);
    match expanded_parts(split_on(path, sep), env, home_var) {
        Ok(parts) => Ok(join_with(parts, seq![sep])),
        Err(variable) => Err(variable),
    }
}

/// What is reported where a path expression refers to a variable that is
/// not set.
pub open spec fn unset_variable_error(variable: Seq<char>) -> SyncErrorView {
    SyncErrorView { kind: ErrorKind::EnvironmentError, detail: "variable not set: "@ + variable }
}

/// Once an element fails to expand, the whole list fails with its variable.
proof fn lemma_expansion_fails_early(
    parts: Seq<Seq<char>>,
    env: Seq<(Seq<char>, Seq<char>)>,
    home_var: Seq<char>,
    k: int,
)
    requires
        0 <= k <= parts.len(),
        expanded_parts(parts.take(k), env, home_var) is Err,
    ensures
        expanded_parts(parts, env, home_var) == expanded_parts(parts.take(k), env, home_var),
    decreases parts.len() - k,
{
    if k == parts.len() {
        assert(parts.take(k) =~= parts);
    } else {
        assert(parts.take(k + 1).drop_last() =~= parts.take(k));
        lemma_expansion_fails_early(parts, env, home_var, k + 1);
    }
}

/// Elements that refer to no variable expand to themselves.
proof fn lemma_literal_parts(
    parts: Seq<Seq<char>>,
    env: Seq<(Seq<char>, Seq<char>)>,
    home_var: Seq<char>,
)
    requires
        forall|i: int| 0 <= i < parts.len() ==> referenced_variable(parts[i], home_var) is None,
    ensures
        expanded_parts(parts, env, home_var) == Ok::<Seq<Seq<char>>, Seq<char>>(parts),
    decreases parts.len(),
{
    if parts.len() == 0 {
        assert(parts =~= Seq::<Seq<char>>::empty());
    } else {
        lemma_literal_parts(parts.drop_last(), env, home_var);
        assert(parts.drop_last().push(parts.last()) =~= parts);
    }
}

/// A path none of whose elements refers to a variable stands for itself.
pub proof fn lemma_literal_path_is_unchanged(
    path: Seq<char>,
    env: Seq<(Seq<char>, Seq<char>)>,
    home_var: Seq<char>,
)
    requires
        forall|i: int|
            0 <= i < split_on(path, separator_of(path)).len() ==> referenced_variable(
                #[trigger] split_on(path, separator_of(path))[i],
                home_var,
            ) is None,
    ensures
        normalized(path, env, home_var) == Ok::<Seq<char>, Seq<char>>(path),
{
    let sep = separator_of(path);
    lemma_literal_parts(split_on(path, sep), env, home_var);
    lemma_join_of_split(path, sep);
}

/// A path of one element stands for what the element stands for: so a bare
/// `~` stands for the home directory, and `$NAME` for the value of `NAME`.
pub proof fn lemma_single_element_path(
    path: Seq<char>,
    env: Seq<(Seq<char>, Seq<char>)>,
    home_var: Seq<char>,
)
    requires
        !path.contains('/'),
        !path.contains('\\'),
    ensures
        normalized(path, env, home_var) == expanded_part(path, env, home_var),
{
    lemma_split_without_separator(path, '\\');
    let parts = seq![path];
    let none = Seq::<Seq<char>>::empty();
    assert(parts.drop_last() =~= none);
    assert(parts.last() == path);
    assert(expanded_parts(none, env, home_var) == Ok::<Seq<Seq<char>>, Seq<char>>(none));
    match expanded_part(path, env, home_var) {
        Ok(value) => {
            assert(none.push(value) =~= seq![value]);
            assert(expanded_parts(parts, env, home_var) == Ok::<Seq<Seq<char>>, Seq<char>>(
                seq![value],
            ));
            assert(join_with(seq![value], seq!['\\']) == value);
        },
        Err(variable) => {
            assert(expanded_parts(parts, env, home_var) == Err::<Seq<Seq<char>>, Seq<char>>(
                variable,
            ));
        },
    }
}

/// The separator at which `path` is taken apart, as a character and as the
/// text to join with.
fn separator(path: &Vec<char>) -> (sep: (char, &'static str))
    ensures
        sep.0 == separator_of(path@),
        sep.1@ == seq![sep.0],
{
    let mut i: usize = 0;
    while i < path.len()
        invariant
            i <= path.len(),
            forall|j: int| 0 <= j < i ==> path@[j] != '/',
        decreases path.len() - i,
    {
        if path[i] == '/' {
            proof {
                reveal_strlit("/");
                assert(path@.contains('/'));
                assert("/"@ =~= seq!['/']);
            }
            return ('/', "/");
        }
        i = i + 1;
    }
    proof {
        reveal_strlit("\\");
        assert("\\"@ =~= seq!['\\']);
    }
    ('\\', "\\")
}

/// What one element of a path expression stands for.
pub fn expand_part(part: &str, platform: Platform, env: &Environment) -> (value: Result<
    String,
    SyncError,
>)
    ensures
        match value {
            Ok(value) => expanded_part(part@, env@, home_dir_env_var(platform)) == Ok::<
                Seq<char>,
                Seq<char>,
            >(value@),
            Err(error) => expanded_part(part@, env@, home_dir_env_var(platform)) matches Err(
                variable,
            ) && error@ == unset_variable_error(variable),
        },
{
    let chars = chars_of(part);
    let n: usize = chars.len();
    let variable: String = if n >= 1 && chars[0] == '$' {
        part.substring_char(1, n).to_owned()
    } else if n >= 2 && chars[0] == '%' && chars[n - 1] == '%' {
        part.substring_char(1, n - 1).to_owned()
    } else if n == 1 && chars[0] == '~' {
        get_home_dir_env_var(platform).to_owned()
    } else {
        return Ok(part.to_owned());
    };
    match env.get(variable.as_str()) {
        Some(value) => Ok(value),
        None => {
            let mut detail = "variable not set: ".to_owned();
            detail.append(variable.as_str());
            Err(SyncError { kind: ErrorKind::EnvironmentError, detail })
        },
    }
}

/// The path that a path expression stands for. Fails with
/// `EnvironmentError` where an element refers to a variable that is not
/// set, naming the first such variable from the left.
pub fn normalize(path: &str, platform: Platform, env: &Environment) -> (expanded: Result<
    String,
    SyncError,
>)
    ensures
        match expanded {
            Ok(expanded) => normalized(path@, env@, home_dir_env_var(platform)) == Ok::<
                Seq<char>,
                Seq<char>,
            >(expanded@),
            Err(error) => normalized(path@, env@, home_dir_env_var(platform)) matches Err(
                variable,
            ) && error@ == unset_variable_error(variable),
        },
{
    let chars = chars_of(path);
    let (sep, sep_text) = separator(&chars);
    let parts = split_text(path, sep);
    let ghost home_var = home_dir_env_var(platform);
    let ghost all = split_on(path@, sep);
    let mut values: Vec<String> = Vec::new();
    let mut i: usize = 0;
    proof {
        assert(all.take(0) =~= Seq::<Seq<char>>::empty());
        assert(texts(values@) =~= Seq::<Seq<char>>::empty());
    }
    while i < parts.len()
        invariant
            i <= parts.len(),
            texts(parts@) == all,
            all == split_on(path@, separator_of(path@)),
            expanded_parts(all.take(i as int), env@, home_var) == Ok::<
                Seq<Seq<char>>,
                Seq<char>,
            >(texts(values@)),
            home_var == home_dir_env_var(platform),
        decreases parts.len() - i,
    {
        proof {
            assert(all.take(i + 1).drop_last() =~= all.take(i as int));
            assert(all.take(i + 1).last() == parts@[i as int]@);
        }
        match expand_part(parts[i].as_str(), platform, env) {
            Ok(value) => {
                let ghost before = values@;
                values.push(value);
                proof {
                    assert(texts(values@) =~= texts(before).push(value@));
                }
            },
            Err(error) => {
                proof {
                    lemma_expansion_fails_early(all, env@, home_var, i + 1);
                }
                return Err(error);
            },
        }
        i = i + 1;
    }
    proof {
        assert(all.take(parts.len() as int) =~= all);
    }
    Ok(join_text(&values, sep_text))
}

} // verus!
