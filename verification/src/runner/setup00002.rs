//! The arguments of the setup that installs a kernel built from a given git
//! repository on the guest: kernel configuration options such as
//! `+CONFIG_ZSWAP`, and the directory the repository is cloned into.

use vstd::prelude::*;
use crate::text::{chars_of, hex_lower, owned, push_hex, push_str, suffix_from};

verus! {

/// Why a kernel configuration option was refused.
#[derive(Debug)]
pub enum ConfigOptionError {
    /// The option, or the name after its sign, is empty.
    Empty,
    /// The name after the sign holds a character other than an ASCII
    /// letter, digit or `_`.
    InvalidName(String),
    /// The option starts with neither `+` nor `-`.
    MissingSign,
}

/// The text of the message for the error of kind `kind` (as
/// `config_option` numbers them) about the name `name`.
pub open spec fn message_text(kind: nat, name: Seq<char>) -> Seq<char> {
    if kind == 0 {
        "Empty string is not a valid option"@
    } else if kind == 1 {
        "Invalid config name \""@ + name + "\""@
    } else {
        "Kernel config option must be prefixed with + or -"@
    }
}

/// The text of the message for an error.
pub open spec fn error_text(e: ConfigOptionError) -> Seq<char> {
    message_text(error_key(e).0, error_key(e).1)
}

impl ConfigOptionError {
    /// The message that describes the error.
    pub fn message(&self) -> (r: String)
        ensures
            r@ == error_text(*self),
    {
        match self {
            ConfigOptionError::Empty => owned("Empty string is not a valid option"),
            ConfigOptionError::InvalidName(n) => {
                let mut m = owned("Invalid config name \"");
                push_str(&mut m, n.as_str());
                push_str(&mut m, "\"");
                m
            },
            ConfigOptionError::MissingSign => owned("Kernel config option must be prefixed with + or -"),
        }
    }
}

/// Whether `c` may stand in the name of a configuration option.
pub open spec fn name_char(c: char) -> bool {
    ('a' <= c <= 'z') || ('A' <= c <= 'Z') || ('0' <= c <= '9') || c == '_'
}

/// Whether every character of `s` may stand in a name.
pub open spec fn name_chars(s: Seq<char>) -> bool {
    forall|i: int| 0 <= i < s.len() ==> name_char(#[trigger] s[i])
}

/// What parsing the option `opt` gives: the name and whether it is to be
/// enabled, or the error, described by its kind and, for a bad name, the
/// name.
pub open spec fn config_option(opt: Seq<char>) -> Result<(Seq<char>, bool), (nat, Seq<char>)> {
    if opt.len() == 0 {
        Err((0, Seq::empty()))
    } else if opt[0] != '+' && opt[0] != '-' {
        Err((2, Seq::empty()))
    } else {
        let name = opt.skip(1);
        if name.len() == 0 {
            Err((0, Seq::empty()))
        } else if !name_chars(name) {
            Err((1, name))
        } else {
            Ok((name, opt[0] == '+'))
        }
    }
}

/// The kind and name that describe an error, as `config_option` gives them.
pub open spec fn error_key(e: ConfigOptionError) -> (nat, Seq<char>) {
    match e {
        ConfigOptionError::Empty => (0, Seq::empty()),
        ConfigOptionError::InvalidName(n) => (1, n@),
        ConfigOptionError::MissingSign => (2, Seq::empty()),
    }
}

fn is_name_char(c: char) -> (r: bool)
    ensures
        r == name_char(c),
{
    ('a' <= c && c <= 'z') || ('A' <= c && c <= 'Z') || ('0' <= c && c <= '9') || c == '_'
}

/// Parses a kernel configuration option: a `+` (enable) or `-` (disable)
/// followed by a non-empty name of ASCII letters, digits and `_`.
pub fn parse_config_option(opt: &str) -> (r: Result<(String, bool), ConfigOptionError>)
    requires
        opt@.len() == 0 || (opt@[0] as u32) < 128,
    ensures
        match r {
            Ok((name, on)) => config_option(opt@) == Ok::<(Seq<char>, bool), (nat, Seq<char>)>((name@, on)),
            Err(e) => config_option(opt@) == Err::<(Seq<char>, bool), (nat, Seq<char>)>(error_key(e)),
        },
{
    let v = chars_of(opt);
    if v.len() == 0 {
        return Err(ConfigOptionError::Empty);
    }
    let first = v[0];
    if first != '+' && first != '-' {
        return Err(ConfigOptionError::MissingSign);
    }
    let name = suffix_from(opt, 1);
    assert(name@ =~= opt@.skip(1));
    if v.len() == 1 {
        return Err(ConfigOptionError::Empty);
    }
    let mut i: usize = 1;
    while i < v.len()
        invariant
            v@ == opt@,
            name@ == opt@.skip(1),
            v@.len() >= 2,
            v@[0] == '+' || v@[0] == '-',
            1 <= i <= v@.len(),
            forall|k: int| 1 <= k < i ==> name_char(#[trigger] v@[k]),
        decreases v@.len() - i,
    {
        if !is_name_char(v[i]) {
            assert(opt@.skip(1)[i - 1] == v@[i as int]);
            assert(!name_char(opt@.skip(1)[i - 1]));
            assert(!name_chars(name@));
            assert(name@.len() > 0);
            return Err(ConfigOptionError::InvalidName(name));
        }
        i = i + 1;
    }
    assert(name_chars(opt@.skip(1))) by {
        assert forall|k: int| 0 <= k < opt@.skip(1).len() implies name_char(#[trigger] opt@.skip(1)[k]) by {
            assert(opt@.skip(1)[k] == v@[k + 1]);
        }
    }
    Ok((name, first == '+'))
}

/// The answer to the command line's check of an option: nothing where it
/// parses, else the message of its error.
pub fn validate_config_option(opt: String) -> (r: Result<(), String>)
    requires
        opt@.len() == 0 || (opt@[0] as u32) < 128,
    ensures
        match config_option(opt@) {
            Ok(_) => r is Ok,
            Err((kind, name)) => r is Err && r->Err_0@ == message_text(kind, name),
        },
{
    match parse_config_option(opt.as_str()) {
        Ok(_) => Ok(()),
        Err(e) => {
            let m = e.message();
            Err(m)
        },
    }
}

/// The hash that `DefaultHasher` gives the string `s`.
pub uninterp spec fn default_hash_of(s: Seq<char>) -> u64;

/// Hashes `s` with a `DefaultHasher` made by `new` (as
/// `BuildHasher::hash_one` does, for a `BuildHasherDefault`). The contract
/// names the result: such a hasher is not seeded, so the same text gives the
/// same hash in every run of one build; nothing is said of its value.
#[verifier::external_body]
fn default_hash(s: &str) -> (h: u64)
    ensures
        h == default_hash_of(s@),
{
    std::hash::BuildHasher::hash_one(&std::hash::BuildHasherDefault::<std::collections::hash_map::DefaultHasher>::default(), s)
}

/// The directory name for a kernel repository whose name and branch hash
/// to `hash`.
pub fn kernel_dir_name(hash: u64) -> (r: String)
    ensures
        r@ == "kernel-"@ + hex_lower(hash as nat),
{
    let mut r = owned("kernel-");
    push_hex(&mut r, hash);
    r
}

/// A directory name for the kernel repository `repo` at `branch` that is
/// safe to use in a path: `kernel-` and the hexadecimal hash of the two.
pub fn pathify(repo: &str, branch: &str) -> (r: String)
    ensures
        r@ == "kernel-"@ + hex_lower(default_hash_of(repo@ + branch@) as nat),
{
    let mut s = owned(repo);
    push_str(&mut s, branch);
    let h = default_hash(s.as_str());
    kernel_dir_name(h)
}

} // verus!
