//! The tool's commands as plain data, together with the pure computation
//! each performs.  Reading standard input, spawning processes and printing
//! stay with the caller; the functions here only transform values.

use vstd::prelude::*;

verus! {

/// Replaces path separators in a string: forward slashes become backslashes
/// when `to_backslash` is set, and backslashes become forward slashes
/// otherwise.
pub struct FixPathSeparatorsCommand {
    pub path: Option<String>,
}

impl FixPathSeparatorsCommand {
    /// A command over the given path, or over a line read from standard
    /// input when no path is given.
    pub fn new(path: Option<String>) -> (r: Self)
        ensures
            r.path == path,
    {
        Self { path }
    }
}

/// Reports the commits that exist upstream but not locally.
pub struct GitIncomingCommand {}

impl GitIncomingCommand {
    pub fn new() -> (r: Self) {
        Self {  }
    }
}

/// Reports the commits that exist locally but not upstream.
pub struct GitOutgoingCommand {}

impl GitOutgoingCommand {
    pub fn new() -> (r: Self) {
        Self {  }
    }
}

/// Installs the configured aliases into the environment.
pub struct EnvironmentCommand {
    pub path: Option<String>,
}

impl EnvironmentCommand {
    /// A command over the given base directory, or over the current one
    /// when no path is given.
    pub fn new(path: Option<String>) -> (r: Self)
        ensures
            r.path == path,
    {
        Self { path }
    }
}

/// What one character becomes under separator replacement.
pub open spec fn swap_separator(c: char, to_backslash: bool) -> char {
    if to_backslash && c == '/' {
        '\\'
    } else if !to_backslash && c == '\\' {
        '/'
    } else {
        c
    }
}

/// The string with every separator replaced, character for character.
pub open spec fn spec_fix_separators(s: Seq<char>, to_backslash: bool) -> Seq<char> {
    s.map_values(|c: char| swap_separator(c, to_backslash))
}

/// Replaces every path separator in `input`, leaving all other characters
/// unchanged.
pub fn fix_separators(input: &str, to_backslash: bool) -> (r: String)
    ensures
        r@ == spec_fix_separators(input@, to_backslash),
{
    let mut r = String::new();
    let n = input.unicode_len();
    proof {
        assert(input@.take(0) =~= Seq::<char>::empty());
        assert(r@ =~= spec_fix_separators(input@.take(0), to_backslash));
    }
    for i in 0..n
        invariant
            n == input@.len(),
            r@ == spec_fix_separators(input@.take(i as int), to_backslash),
    {
        let ghost prev = r@;
        let c = input.get_char(i);
        if to_backslash && c == '/' {
            r.append("\\");
            proof {
                reveal_strlit("\\");
                assert("\\"@ =~= seq!['\\']);
            }
        } else if !to_backslash && c == '\\' {
            r.append("/");
            proof {
                reveal_strlit("/");
                assert("/"@ =~= seq!['/']);
            }
        } else {
            let piece = input.substring_char(i, i + 1);
            r.append(piece);
            proof {
                assert(piece@ =~= seq![input@[i as int]]);
            }
        }
        proof {
            assert(r@ =~= prev.push(swap_separator(c, to_backslash)));
            assert(input@.take(i as int + 1) =~= input@.take(i as int).push(c));
            assert(spec_fix_separators(input@.take(i as int + 1), to_backslash)
                =~= spec_fix_separators(input@.take(i as int), to_backslash).push(
                swap_separator(c, to_backslash),
            ));
        }
    }
    proof {
        assert(input@.take(n as int) =~= input@);
    }
    r
}

} // verus!
