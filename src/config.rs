use vstd::prelude::*;

use crate::process::Platform;
use crate::text::{fields, join_with, joined, list2, owned, split_fields, texts, trim, trimmed};

verus! {

/// The settings that parameterize every step of the routine.
#[derive(Clone, Debug)]
pub struct Config {
    pub root_dir: String,
    pub manifest_path: String,
    pub work_dir: String,
    pub git_branch: String,
    pub shell_commands: Vec<String>,
    pub applications: Vec<String>,
    pub app_dir: String,
}

/// A configuration as plain text.
pub ghost struct ConfigView {
    pub root_dir: Seq<char>,
    pub manifest_path: Seq<char>,
    pub work_dir: Seq<char>,
    pub git_branch: Seq<char>,
    pub shell_commands: Seq<Seq<char>>,
    pub applications: Seq<Seq<char>>,
    pub app_dir: Seq<char>,
}

impl View for Config {
    type V = ConfigView;

    open spec fn view(&self) -> ConfigView {
        ConfigView {
            root_dir: self.root_dir@,
            manifest_path: self.manifest_path@,
            work_dir: self.work_dir@,
            git_branch: self.git_branch@,
            shell_commands: texts(self.shell_commands@),
            applications: texts(self.applications@),
            app_dir: self.app_dir@,
        }
    }
}

/// Where applications are looked for on each platform.
pub open spec fn app_dir_for(platform: Platform) -> Seq<char> {
    match platform {
        Platform::MacOs => "/Applications"@,
        Platform::Windows => "C:\\Program Files"@,
        Platform::Other => "/usr/bin"@,
    }
}

/// The configuration used where the file says nothing.
pub open spec fn default_view(platform: Platform) -> ConfigView {
    ConfigView {
        root_dir: "~/.daybegin"@,
        manifest_path: "~/.daybegin/daybegin/Cargo.toml"@,
        work_dir: Seq::<char>::empty(),
        git_branch: Seq::<char>::empty(),
        shell_commands: seq!["make clean"@, "make build"@],
        applications: seq!["Docker.app"@, "Visual Studio Code.app"@],
        app_dir: app_dir_for(platform),
    }
}

/// What an answer to a prompt means: the trimmed answer, or the default when
/// nothing but white space was given.
pub open spec fn answer_text(line: Seq<char>, default: Seq<char>) -> Seq<char> {
    if trimmed(line).len() == 0 {
        default
    } else {
        trimmed(line)
    }
}

/// What a comma-separated answer means: its trimmed pieces, or the defaults
/// when nothing but white space was given.
pub open spec fn list_answer(line: Seq<char>, defaults: Seq<Seq<char>>) -> Seq<Seq<char>> {
    if trimmed(line).len() == 0 {
        defaults
    } else {
        fields(trimmed(line), ',').map_values(|f: Seq<char>| trimmed(f))
    }
}

fn copy_strings(v: &Vec<String>) -> (r: Vec<String>)
    ensures
        r@ == v@,
{
    let mut out: Vec<String> = Vec::new();
    let mut i: usize = 0;
    while i < v.len()
        invariant
            i <= v.len(),
            out@ == v@.subrange(0, i as int),
        decreases v.len() - i,
    {
        out.push(v[i].clone());
        i = i + 1;
        assert(out@ =~= v@.subrange(0, i as int));
    }
    assert(v@.subrange(0, v.len() as int) =~= v@);
    out
}

pub fn default_root_dir() -> (r: String)
    ensures
        r@ == "~/.daybegin"@,
{
    owned("~/.daybegin")
}

pub fn default_manifest_path() -> (r: String)
    ensures
        r@ == "~/.daybegin/daybegin/Cargo.toml"@,
{
    owned("~/.daybegin/daybegin/Cargo.toml")
}

pub fn default_shell_commands() -> (r: Vec<String>)
    ensures
        texts(r@) == seq!["make clean"@, "make build"@],
{
    list2("make clean", "make build")
}

pub fn default_applications() -> (r: Vec<String>)
    ensures
        texts(r@) == seq!["Docker.app"@, "Visual Studio Code.app"@],
{
    list2("Docker.app", "Visual Studio Code.app")
}

pub fn default_app_dir(platform: Platform) -> (r: String)
    ensures
        r@ == app_dir_for(platform),
{
    match platform {
        Platform::MacOs => owned("/Applications"),
        Platform::Windows => owned("C:\\Program Files"),
        Platform::Other => owned("/usr/bin"),
    }
}

/// The trimmed answer, or `default` when the answer is blank.
pub fn answer_or_default(line: &str, default: &str) -> (r: String)
    ensures
        r@ == answer_text(line@, default@),
{
    let t = trim(line);
    if t.as_str().unicode_len() == 0 {
        owned(default)
    } else {
        t
    }
}

/// The trimmed comma-separated pieces of the answer, or a copy of `defaults`
/// when the answer is blank.
pub fn list_answer_or_default(line: &str, defaults: &Vec<String>) -> (r: Vec<String>)
    ensures
        texts(r@) == list_answer(line@, texts(defaults@)),
{
    let t = trim(line);
    if t.as_str().unicode_len() == 0 {
        return copy_strings(defaults);
    }
    let pieces = split_fields(t.as_str(), ',');
    let mut out: Vec<String> = Vec::new();
    let mut i: usize = 0;
    let ghost want = fields(t@, ',').map_values(|f: Seq<char>| trimmed(f));
    while i < pieces.len()
        invariant
            i <= pieces.len(),
            texts(pieces@) == fields(t@, ','),
            want == fields(t@, ',').map_values(|f: Seq<char>| trimmed(f)),
            texts(out@) == want.subrange(0, i as int),
        decreases pieces.len() - i,
    {
        let ghost before = texts(out@);
        let p = trim(pieces[i].as_str());
        assert(pieces@[i as int]@ == fields(t@, ',')[i as int]);
        out.push(p);
        i = i + 1;
        assert(texts(out@) =~= before.push(p@));
        assert(texts(out@) =~= want.subrange(0, i as int));
    }
    assert(want.subrange(0, i as int) =~= want);
    out
}

/// The list of defaults as shown beside a prompt.
pub fn list_prompt_default(defaults: &Vec<String>) -> (r: String)
    ensures
        r@ == joined(texts(defaults@), ", "@),
{
    join_with(defaults, ", ")
}

impl Config {
    /// The configuration used where the file says nothing.
    pub fn default_for(platform: Platform) -> (r: Config)
        ensures
            r@ == default_view(platform),
    {
        Config {
            root_dir: default_root_dir(),
            manifest_path: default_manifest_path(),
            work_dir: String::new(),
            git_branch: String::new(),
            shell_commands: default_shell_commands(),
            applications: default_applications(),
            app_dir: default_app_dir(platform),
        }
    }

    /// The configuration that first-run answers make of `self`: the working
    /// directory, branch, shell commands and applications come from the
    /// answers, blank answers keep what `self` holds, and the rest is kept.
    pub fn from_answers(
        &self,
        work_dir: &str,
        git_branch: &str,
        shell_commands: &str,
        applications: &str,
    ) -> (r: Config)
        ensures
            r@ == (ConfigView {
                work_dir: answer_text(work_dir@, self.work_dir@),
                git_branch: answer_text(git_branch@, self.git_branch@),
                shell_commands: list_answer(shell_commands@, self@.shell_commands),
                applications: list_answer(applications@, self@.applications),
                ..self@
            }),
    {
        Config {
            root_dir: self.root_dir.clone(),
            manifest_path: self.manifest_path.clone(),
            work_dir: answer_or_default(work_dir, self.work_dir.as_str()),
            git_branch: answer_or_default(git_branch, self.git_branch.as_str()),
            shell_commands: list_answer_or_default(shell_commands, &self.shell_commands),
            applications: list_answer_or_default(applications, &self.applications),
            app_dir: self.app_dir.clone(),
        }
    }
}

} // verus!
