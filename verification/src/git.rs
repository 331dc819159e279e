//! The pure side of the git helpers: branch-name handling and the argument
//! vectors handed to the `git` binary.  Running the binary and reading its
//! output stay with the caller.

use vstd::prelude::*;

verus! {

/// A local branch together with its upstream counterpart.
#[derive(Debug, PartialEq, Eq)]
pub struct BranchPair {
    pub local_branch: String,
    pub remote_branch: String,
}

impl BranchPair {
    pub fn new(local_branch: String, remote_branch: String) -> (r: BranchPair)
        ensures
            r.local_branch == local_branch,
            r.remote_branch == remote_branch,
    {
        BranchPair { local_branch, remote_branch }
    }
}

/// Where a git alias is recorded.
#[derive(Clone, Copy, Debug, PartialEq, Eq, Structural)]
pub enum AliasScope {
    Global,
    System,
    Local,
    Worktree,
}

/// What a git alias runs: a git subcommand, a python script, or another
/// alias expansion.
#[derive(Debug, PartialEq, Eq)]
pub enum AliasInfo {
    GitCommand(String),
    PythonCommand(String),
    AliasCommand(String),
}

/// One git alias to install.
#[derive(Debug, PartialEq, Eq)]
pub struct Alias {
    pub scope: AliasScope,
    pub name: String,
    pub info: AliasInfo,
}

impl Alias {
    pub fn new(scope: AliasScope, name: String, info: AliasInfo) -> (r: Alias)
        ensures
            r.scope == scope,
            r.name == name,
            r.info == info,
    {
        Alias { scope, name, info }
    }
}

/// A character that branch-name trimming removes at either end.
pub open spec fn is_blank(c: char) -> bool {
    c == ' ' || c == '\t' || c == '\n' || c == '\r'
}

/// The string without its leading blank characters.
pub open spec fn trim_front(s: Seq<char>) -> Seq<char>
    decreases s.len(),
{
    if s.len() > 0 && is_blank(s[0]) {
        trim_front(s.drop_first())
    } else {
        s
    }
}

/// The string without its trailing blank characters.
pub open spec fn trim_back(s: Seq<char>) -> Seq<char>
    decreases s.len(),
{
    if s.len() > 0 && is_blank(s[s.len() - 1]) {
        trim_back(s.drop_last())
    } else {
        s
    }
}

/// The string without leading or trailing blank characters.
pub open spec fn spec_trim(s: Seq<char>) -> Seq<char> {
    trim_back(trim_front(s))
}

proof fn lemma_trim_front_skip(s: Seq<char>, k: int)
    requires
        0 <= k <= s.len(),
        forall|j: int| 0 <= j < k ==> is_blank(s[j]),
        k < s.len() ==> !is_blank(s[k]),
    ensures
        trim_front(s) == s.skip(k),
    decreases k,
{
    if k == 0 {
        assert(s.skip(0) =~= s);
    } else {
        assert(is_blank(s[0]));
        lemma_trim_front_skip(s.drop_first(), k - 1);
        assert(s.drop_first().skip(k - 1) =~= s.skip(k));
    }
}

proof fn lemma_trim_back_take(s: Seq<char>, k: int)
    requires
        0 <= k <= s.len(),
        forall|j: int| k <= j < s.len() ==> is_blank(s[j]),
        k > 0 ==> !is_blank(s[k - 1]),
    ensures
        trim_back(s) == s.take(k),
    decreases s.len(),
{
    if k == s.len() {
        assert(s.take(k) =~= s);
    } else {
        assert(is_blank(s[s.len() - 1]));
        lemma_trim_back_take(s.drop_last(), k);
        assert(s.drop_last().take(k) =~= s.take(k));
    }
}

fn is_blank_char(c: char) -> (r: bool)
    ensures
        r == is_blank(c),
{
    c == ' ' || c == '\t' || c == '\n' || c == '\r'
}

/// Removes leading and trailing blank characters from `s`.
pub fn trim_blank(s: &str) -> (r: String)
    ensures
        r@ == spec_trim(s@),
{
    let n = s.unicode_len();
    let mut start: usize = 0;
    while start < n && is_blank_char(s.get_char(start))
        invariant
            n == s@.len(),
            0 <= start <= n,
            forall|j: int| 0 <= j < start ==> is_blank(s@[j]),
        decreases n - start,
    {
        start += 1;
    }
    let mut end: usize = n;
    while end > start && is_blank_char(s.get_char(end - 1))
        invariant
            n == s@.len(),
            start <= end <= n,
            forall|j: int| end <= j < n ==> is_blank(s@[j]),
        decreases end,
    {
        end -= 1;
    }
    let piece = s.substring_char(start, end);
    proof {
        lemma_trim_front_skip(s@, start as int);
        let mid = s@.skip(start as int);
        lemma_trim_back_take(mid, end - start as int);
        assert(mid.take(end - start as int) =~= s@.subrange(start as int, end as int));
    }
    String::from_str(piece)
}

/// Pairs the two branch-name command outputs, trimmed; both must be
/// present.
pub fn pair_branch_names(local: Option<String>, remote: Option<String>) -> (r: Option<BranchPair>)
    ensures
        r is Some <==> (local is Some && remote is Some),
        r is Some ==> r->Some_0.local_branch@ == spec_trim(local->Some_0@)
            && r->Some_0.remote_branch@ == spec_trim(remote->Some_0@),
{
    match (local, remote) {
        (Some(l), Some(u)) => Some(
            BranchPair::new(trim_blank(l.as_str()), trim_blank(u.as_str())),
        ),
        _ => None,
    }
}

/// Compares two strings character for character.
fn str_eq(a: &str, b: &str) -> (r: bool)
    ensures
        r == (a@ == b@),
{
    let n = a.unicode_len();
    if n != b.unicode_len() {
        return false;
    }
    for i in 0..n
        invariant
            n == a@.len(),
            n == b@.len(),
            forall|j: int| 0 <= j < i ==> a@[j] == b@[j],
    {
        if a.get_char(i) != b.get_char(i) {
            return false;
        }
    }
    proof {
        assert(a@ =~= b@);
    }
    true
}

/// The scope flag handed to `git config`.
pub open spec fn spec_scope_flag(s: AliasScope) -> Seq<char> {
    match s {
        AliasScope::Global => "--global"@,
        AliasScope::System => "--system"@,
        AliasScope::Local => "--local"@,
        AliasScope::Worktree => "--worktree"@,
    }
}

/// The quoted alias value handed to `git config`: the expansion in quotes,
/// with a `!python` prefix for a python command.
pub open spec fn spec_alias_value(info: AliasInfo) -> Seq<char> {
    match info {
        AliasInfo::GitCommand(s) => "\""@ + s@ + "\""@,
        AliasInfo::PythonCommand(s) => "\"!python "@ + s@ + "\""@,
        AliasInfo::AliasCommand(s) => "\""@ + s@ + "\""@,
    }
}

/// Builds the argument vector that installs `alias` through `git config`:
/// the subcommand, the scope flag, the dotted alias key, and the quoted
/// value.
pub fn git_alias_args(alias: &Alias) -> (r: Vec<String>)
    ensures
        r@.len() == 4,
        r@[0]@ == "config"@,
        r@[1]@ == spec_scope_flag(alias.scope),
        r@[2]@ == "alias."@ + alias.name@,
        r@[3]@ == spec_alias_value(alias.info),
{
    let scope_arg = match alias.scope {
        AliasScope::Global => String::from_str("--global"),
        AliasScope::System => String::from_str("--system"),
        AliasScope::Local => String::from_str("--local"),
        AliasScope::Worktree => String::from_str("--worktree"),
    };
    let mut key = String::from_str("alias.");
    key.append(alias.name.as_str());
    let value = match &alias.info {
        AliasInfo::GitCommand(s) => {
            let mut v = String::from_str("\"");
            v.append(s.as_str());
            v.append("\"");
            v
        },
        AliasInfo::PythonCommand(s) => {
            let mut v = String::from_str("\"!python ");
            v.append(s.as_str());
            v.append("\"");
            v
        },
        AliasInfo::AliasCommand(s) => {
            let mut v = String::from_str("\"");
            v.append(s.as_str());
            v.append("\"");
            v
        },
    };
    let mut r: Vec<String> = Vec::new();
    r.push(String::from_str("config"));
    r.push(scope_arg);
    r.push(key);
    r.push(value);
    r
}

/// The revision range between two branches, as `git log` takes it.
pub fn log_range(from_branch: &str, to_branch: &str) -> (r: String)
    ensures
        r@ == from_branch@ + ".."@ + to_branch@,
{
    let mut r = String::from_str(from_branch);
    r.append("..");
    r.append(to_branch);
    r
}

/// The alias record as the environment configuration file holds it, with
/// the scope and kind spelled out as strings.
#[derive(Debug, PartialEq, Eq)]
pub struct AliasConfig {
    pub name: String,
    pub scope: String,
    pub kind: String,
    pub args: String,
}

/// The name an alias scope carries in the configuration file.
pub open spec fn spec_scope_name(s: AliasScope) -> Seq<char> {
    match s {
        AliasScope::Global => "global"@,
        AliasScope::System => "system"@,
        AliasScope::Local => "local"@,
        AliasScope::Worktree => "worktree"@,
    }
}

/// The scope an alias-scope name denotes, if any.
pub open spec fn spec_parse_scope(s: Seq<char>) -> Option<AliasScope> {
    if s == "global"@ {
        Some(AliasScope::Global)
    } else if s == "system"@ {
        Some(AliasScope::System)
    } else if s == "local"@ {
        Some(AliasScope::Local)
    } else if s == "worktree"@ {
        Some(AliasScope::Worktree)
    } else {
        None
    }
}

/// The name an alias kind carries in the configuration file.
pub open spec fn spec_kind_name(info: AliasInfo) -> Seq<char> {
    match info {
        AliasInfo::GitCommand(_) => "git"@,
        AliasInfo::PythonCommand(_) => "python"@,
        AliasInfo::AliasCommand(_) => "alias"@,
    }
}

/// The expansion an alias carries.
pub open spec fn spec_info_args(info: AliasInfo) -> Seq<char> {
    match info {
        AliasInfo::GitCommand(s) => s@,
        AliasInfo::PythonCommand(s) => s@,
        AliasInfo::AliasCommand(s) => s@,
    }
}

/// Whether a kind name denotes one of the alias kinds.
pub open spec fn is_known_kind(kind: Seq<char>) -> bool {
    kind == "git"@ || kind == "python"@ || kind == "alias"@
}

impl AliasConfig {
    /// The configuration record for an alias.
    pub fn from_alias(alias: &Alias) -> (r: AliasConfig)
        ensures
            r.name@ == alias.name@,
            r.scope@ == spec_scope_name(alias.scope),
            r.kind@ == spec_kind_name(alias.info),
            r.args@ == spec_info_args(alias.info),
    {
        let name = alias.name.clone();
        let scope = match alias.scope {
            AliasScope::Global => String::from_str("global"),
            AliasScope::System => String::from_str("system"),
            AliasScope::Local => String::from_str("local"),
            AliasScope::Worktree => String::from_str("worktree"),
        };
        let (kind, args) = match &alias.info {
            AliasInfo::GitCommand(s) => (String::from_str("git"), s.clone()),
            AliasInfo::PythonCommand(s) => (String::from_str("python"), s.clone()),
            AliasInfo::AliasCommand(s) => (String::from_str("alias"), s.clone()),
        };
        AliasConfig { name, scope, kind, args }
    }

    /// The alias a configuration record denotes: present exactly when the
    /// scope and kind names are recognized.
    pub fn to_alias(self) -> (r: Option<Alias>)
        ensures
            r is Some <==> (spec_parse_scope(self.scope@) is Some && is_known_kind(self.kind@)),
            r is Some ==> {
                &&& r->Some_0.name@ == self.name@
                &&& Some(r->Some_0.scope) == spec_parse_scope(self.scope@)
                &&& spec_kind_name(r->Some_0.info) == self.kind@
                &&& spec_info_args(r->Some_0.info) == self.args@
            },
    {
        let scope = if str_eq(self.scope.as_str(), "global") {
            AliasScope::Global
        } else if str_eq(self.scope.as_str(), "system") {
            AliasScope::System
        } else if str_eq(self.scope.as_str(), "local") {
            AliasScope::Local
        } else if str_eq(self.scope.as_str(), "worktree") {
            AliasScope::Worktree
        } else {
            return None;
        };
        let info = if str_eq(self.kind.as_str(), "git") {
            AliasInfo::GitCommand(self.args)
        } else if str_eq(self.kind.as_str(), "python") {
            AliasInfo::PythonCommand(self.args)
        } else if str_eq(self.kind.as_str(), "alias") {
            AliasInfo::AliasCommand(self.args)
        } else {
            return None;
        };
        Some(Alias { scope, name: self.name, info })
    }
}

/// The argument vectors the git helpers hand to the `git` binary.
pub fn current_branch_args() -> (r: Vec<String>)
    ensures
        r@.len() == 4,
        r@[0]@ == "rev-parse"@,
        r@[1]@ == "--abbrev-ref"@,
        r@[2]@ == "--symbolic-full-name"@,
        r@[3]@ == "HEAD"@,
{
    let mut r: Vec<String> = Vec::new();
    r.push(String::from_str("rev-parse"));
    r.push(String::from_str("--abbrev-ref"));
    r.push(String::from_str("--symbolic-full-name"));
    r.push(String::from_str("HEAD"));
    r
}

/// The arguments that resolve the upstream branch name.
pub fn upstream_branch_args() -> (r: Vec<String>)
    ensures
        r@.len() == 4,
        r@[0]@ == "rev-parse"@,
        r@[1]@ == "--abbrev-ref"@,
        r@[2]@ == "--symbolic-full-name"@,
        r@[3]@ == "@{upstream}"@,
{
    let mut r: Vec<String> = Vec::new();
    r.push(String::from_str("rev-parse"));
    r.push(String::from_str("--abbrev-ref"));
    r.push(String::from_str("--symbolic-full-name"));
    r.push(String::from_str("@{upstream}"));
    r
}

/// The arguments that list the commits of a revision range, merges left
/// out.
pub fn log_args(range: String) -> (r: Vec<String>)
    ensures
        r@.len() == 3,
        r@[0]@ == "log"@,
        r@[1]@ == "--no-merges"@,
        r@[2] == range,
{
    let mut r: Vec<String> = Vec::new();
    r.push(String::from_str("log"));
    r.push(String::from_str("--no-merges"));
    r.push(range);
    r
}

} // verus!
