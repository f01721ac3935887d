//! The command specification shared by every session, and the parsing rule
//! for `KEY=VALUE` environment overrides.

use vstd::prelude::*;
use vstd::string::StringExecFns;

verus! {

/// The one program every connection is forced into: its path, its arguments
/// in order, and the environment overrides applied to the child, in order.
/// Created once at startup and never mutated.
#[derive(Debug)]
pub struct CmdConfig {
    /// Program path.
    pub command: String,
    /// Ordered argument list.
    pub args: Vec<String>,
    /// Ordered `(name, value)` environment overrides.
    pub env: Vec<(String, String)>,
}

impl CmdConfig {
    /// An exact copy: same command, same arguments, same overrides.
    pub fn duplicate(&self) -> (c: CmdConfig)
        ensures
            c.command@ == self.command@,
            c.args.deep_view() == self.args.deep_view(),
            c.env.deep_view() == self.env.deep_view(),
    {
        let command = self.command.clone();
        let mut args: Vec<String> = Vec::new();
        let mut i: usize = 0;
        while i < self.args.len()
            invariant
                i <= self.args.len(),
                args@.len() == i,
                forall|j: int| 0 <= j < i ==> args@[j]@ == self.args@[j]@,
            decreases self.args.len() - i,
        {
            args.push(self.args[i].clone());
            i = i + 1;
        }
        let mut env: Vec<(String, String)> = Vec::new();
        let mut k: usize = 0;
        while k < self.env.len()
            invariant
                k <= self.env.len(),
                env@.len() == k,
                forall|j: int| 0 <= j < k ==> env@[j].0@ == self.env@[j].0@ && env@[j].1@
                    == self.env@[j].1@,
            decreases self.env.len() - k,
        {
            let name = self.env[k].0.clone();
            let value = self.env[k].1.clone();
            env.push((name, value));
            k = k + 1;
        }
        let c = CmdConfig { command, args, env };
        proof {
            assert(c.args.deep_view() =~= self.args.deep_view());
            assert(c.env.deep_view() =~= self.env.deep_view());
        }
        c
    }
}

/// The full environment a spawned child gets: nothing is inherited, the
/// terminal identity and a UTF-8 locale are forced first, and the configured
/// overrides follow in order (so an override may shadow either).
pub fn build_child_env(overrides: &Vec<(String, String)>) -> (r: Vec<(String, String)>)
    ensures
        r@.len() == overrides@.len() + 2,
        r@[0].0@ == "TERM"@,
        r@[0].1@ == "xterm-256color"@,
        r@[1].0@ == "LANG"@,
        r@[1].1@ == "en_US.UTF-8"@,
        forall|j: int|
            0 <= j < overrides@.len() ==> r@[j + 2].0@ == overrides@[j].0@ && r@[j + 2].1@
                == overrides@[j].1@,
{
    let mut r: Vec<(String, String)> = Vec::new();
    r.push((String::from_str("TERM"), String::from_str("xterm-256color")));
    r.push((String::from_str("LANG"), String::from_str("en_US.UTF-8")));
    let mut i: usize = 0;
    while i < overrides.len()
        invariant
            i <= overrides@.len(),
            r@.len() == i + 2,
            r@[0].0@ == "TERM"@,
            r@[0].1@ == "xterm-256color"@,
            r@[1].0@ == "LANG"@,
            r@[1].1@ == "en_US.UTF-8"@,
            forall|j: int|
                0 <= j < i ==> r@[j + 2].0@ == overrides@[j].0@ && r@[j + 2].1@
                    == overrides@[j].1@,
        decreases overrides@.len() - i,
    {
        let name = overrides[i].0.clone();
        let value = overrides[i].1.clone();
        r.push((name, value));
        i = i + 1;
    }
    r
}

/// The byte that separates a name from its value in an override entry:
/// ASCII `=`.
pub const ENV_SEPARATOR: u8 = 61;

/// Split one `KEY=VALUE` override entry at its first separator.
///
/// An entry without a separator is malformed and yields `None`; the caller
/// skips it. Everything before the first separator (possibly empty) is the
/// name, everything after it (possibly empty) is the value.
pub fn parse_env_entry(entry: &[u8]) -> (r: Option<(Vec<u8>, Vec<u8>)>)
    ensures
        match r {
            Option::None => forall|i: int| 0 <= i < entry@.len() ==> entry@[i] != ENV_SEPARATOR,
            Option::Some(kv) => {
                let klen = kv.0@.len() as int;
                &&& klen < entry@.len()
                &&& entry@[klen] == ENV_SEPARATOR
                &&& forall|i: int| 0 <= i < klen ==> entry@[i] != ENV_SEPARATOR
                &&& kv.0@ == entry@.subrange(0, klen)
                &&& kv.1@ == entry@.subrange(klen + 1, entry@.len() as int)
            },
        },
{
    let mut i: usize = 0;
    while i < entry.len() && entry[i] != ENV_SEPARATOR
        invariant
            i <= entry@.len(),
            forall|j: int| 0 <= j < i ==> entry@[j] != ENV_SEPARATOR,
        decreases entry@.len() - i,
    {
        i = i + 1;
    }
    if i == entry.len() {
        return Option::None;
    }
    let sep: usize = i;
    let mut key: Vec<u8> = Vec::new();
    let mut j: usize = 0;
    while j < sep
        invariant
            j <= sep,
            sep < entry@.len(),
            key@ == entry@.subrange(0, j as int),
        decreases sep - j,
    {
        key.push(entry[j]);
        proof {
            assert(key@ =~= entry@.subrange(0, j + 1));
        }
        j = j + 1;
    }
    let mut value: Vec<u8> = Vec::new();
    let mut k: usize = sep + 1;
    while k < entry.len()
        invariant
            sep + 1 <= k <= entry@.len(),
            value@ == entry@.subrange(sep + 1, k as int),
        decreases entry@.len() - k,
    {
        value.push(entry[k]);
        proof {
            assert(value@ =~= entry@.subrange(sep + 1, k + 1));
        }
        k = k + 1;
    }
    Option::Some((key, value))
}

} // verus!
