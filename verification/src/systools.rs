//! What depends on the system the tool runs on: the name of the variable
//! that holds the home directory, a snapshot of the environment, and the
//! lexical rules for `/`-separated paths.

use crate::text::same_text;
use vstd::prelude::*;

verus! {

/// The family of system the tool runs on.
#[derive(Clone, Copy, Debug, PartialEq, Eq, Structural)]
pub enum Platform {
    Unix,
    Windows,
}

/// The name of the environment variable that holds the home directory.
pub open spec fn home_dir_env_var(platform: Platform) -> Seq<char> {
    match platform {
        Platform::Unix => "HOME"@,
        Platform::Windows => "USERPROFILE"@,
    }
}

/// The name of the environment variable that holds the home directory:
/// `HOME` on Unix, `USERPROFILE` on Windows.
pub fn get_home_dir_env_var(platform: Platform) -> (name: &'static str)
    ensures
        name@ == home_dir_env_var(platform),
{
    match platform {
        Platform::Unix => "HOME",
        Platform::Windows => "USERPROFILE",
    }
}

/// One variable of the environment.
#[derive(Debug, PartialEq, Eq)]
pub struct EnvVar {
    pub name: String,
    pub value: String,
}

/// A snapshot of the process environment, taken once by the caller. Where a
/// name occurs more than once, its first binding counts.
#[derive(Debug, PartialEq, Eq)]
pub struct Environment {
    pub vars: Vec<EnvVar>,
}

impl View for Environment {
    type V = Seq<(Seq<char>, Seq<char>)>;

    open spec fn view(&self) -> Seq<(Seq<char>, Seq<char>)> {
        Seq::new(self.vars.len() as nat, |i: int| (self.vars[i].name@, self.vars[i].value@))
    }
}

/// The value that `env` binds `name` to, if it binds it.
pub open spec fn lookup(env: Seq<(Seq<char>, Seq<char>)>, name: Seq<char>) -> Option<Seq<char>>
    decreases env.len(),
{
    if env.len() == 0 {
        None
    } else if env[0].0 == name {
        Some(env[0].1)
    } else {
        lookup(env.drop_first(), name)
    }
}

impl Environment {
    /// The empty environment.
    pub fn new() -> (env: Environment)
        ensures
            env@ == Seq::<(Seq<char>, Seq<char>)>::empty(),
    {
        let env = Environment { vars: Vec::new() };
        assert(env@ =~= Seq::<(Seq<char>, Seq<char>)>::empty());
        env
    }

    /// Adds a binding after those already there.
    pub fn define(&mut self, name: &str, value: &str)
        ensures
            final(self)@ == old(self)@.push((name@, value@)),
    {
        self.vars.push(EnvVar { name: name.to_owned(), value: value.to_owned() });
        assert(self@ =~= old(self)@.push((name@, value@)));
    }

    /// The value bound to `name`, if there is one.
    pub fn get(&self, name: &str) -> (value: Option<String>)
        ensures
            match value {
                Some(v) => lookup(self@, name@) == Some(v@),
                None => lookup(self@, name@) is None,
            },
    {
        let mut i: usize = 0;
        assert(self@.skip(0) =~= self@);
        while i < self.vars.len()
            invariant
                i <= self.vars.len(),
                lookup(self@, name@) == lookup(self@.skip(i as int), name@),
            decreases self.vars.len() - i,
        {
            let ghost rest = self@.skip(i as int);
            proof {
                assert(rest[0] == self@[i as int]);
                assert(rest.drop_first() =~= self@.skip(i + 1));
            }
            if same_text(self.vars[i].name.as_str(), name) {
                return Some(self.vars[i].value.clone());
            }
            i = i + 1;
        }
        proof {
            assert(self@.skip(self.vars.len() as int).len() == 0);
        }
        None
    }
}

/// The home directory, as the environment gives it.
pub fn get_home_dir(platform: Platform, env: &Environment) -> (home: Option<String>)
    ensures
        match home {
            Some(dir) => lookup(env@, home_dir_env_var(platform)) == Some(dir@),
            None => lookup(env@, home_dir_env_var(platform)) is None,
        },
{
    env.get(get_home_dir_env_var(platform))
}

/// Whether a path starts at the root.
pub open spec fn is_rooted(path: Seq<char>) -> bool {
    path.len() > 0 && path[0] == '/'
}

/// `rel` taken from the directory `base`: a rooted `rel` stands for itself,
/// as does any `rel` where `base` is empty; otherwise the two are put
/// together with exactly one `/` where they meet.
pub open spec fn joined_path(base: Seq<char>, rel: Seq<char>) -> Seq<char> {
    if is_rooted(rel) || base.len() == 0 {
        rel
    } else if base.last() == '/' {
        base + rel
    } else {
        base + "/"@ + rel
    }
}

/// The lexically cleaned form of a `/`-separated path, as `path_clean::clean`
/// computes it: runs of slashes reduced to one, `.` elements dropped, each
/// `..` cancelled against the element before it where there is one to
/// cancel, and `.` in place of an empty result.
pub uninterp spec fn cleaned_path(path: Seq<char>) -> Seq<char>;

/// Calls `path_clean::clean`, which works on the text of the path alone and
/// never touches the filesystem. The contract only gives its result the
/// name `cleaned_path`.
#[verifier::external_body]
fn clean_path(path: &str) -> (cleaned: String)
    ensures
        cleaned@ == cleaned_path(path@),
{
    path_clean::clean(path)
}

/// Whether a path starts at the root.
pub fn path_is_rooted(path: &str) -> (rooted: bool)
    ensures
        rooted == is_rooted(path@),
{
    path.unicode_len() > 0 && path.get_char(0) == '/'
}

/// `rel` taken from the directory `base`.
pub fn join_path(base: &str, rel: &str) -> (joined: String)
    ensures
        joined@ == joined_path(base@, rel@),
{
    let base_len: usize = base.unicode_len();
    if path_is_rooted(rel) || base_len == 0 {
        return rel.to_owned();
    }
    let mut joined = base.to_owned();
    if base.get_char(base_len - 1) != '/' {
        joined.append("/");
    }
    joined.append(rel);
    joined
}

/// The absolute, cleaned form of `path` for a process whose working
/// directory is `cwd`.
pub open spec fn absolute_form(path: Seq<char>, cwd: Seq<char>) -> Seq<char> {
    cleaned_path(joined_path(cwd, path))
}

/// The absolute, cleaned form of `path`: a rooted path is cleaned as it is,
/// any other is first taken from `cwd`.
pub fn absolute_path(path: &str, cwd: &str) -> (absolute: String)
    ensures
        absolute@ == absolute_form(path@, cwd@),
{
    let joined = join_path(cwd, path);
    clean_path(joined.as_str())
}

} // verus!
