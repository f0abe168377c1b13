use vstd::prelude::*;
use vstd::string::{StrSliceExecFns, StringExecFns};

verus! {

/// What `str::trim` returns for a string: it without leading and trailing
/// whitespace.
pub uninterp spec fn trimmed_of(s: Seq<char>) -> Seq<char>;

/// Relies on `str::trim`: the result depends on the characters alone.
#[verifier::external_body]
fn trim_line(s: &str) -> (r: &str)
    ensures
        r@ == trimmed_of(s@),
{
    s.trim()
}

/// A line typed at the agent's prompt.
#[derive(Debug, Clone, PartialEq, Eq)]
pub enum CliInput {
    /// Stop the agent.
    Exit,
    /// Publish a task with this prompt.
    Publish(String),
    /// Anything else, which is ignored.
    Ignored,
}

pub open spec fn publish_prefix() -> Seq<char> {
    seq!['p', 'u', 'b', 'l', 'i', 's', 'h', ' ']
}

pub open spec fn has_publish_prefix(t: Seq<char>) -> bool {
    t.len() >= publish_prefix().len() && t.subrange(0, publish_prefix().len() as int)
        == publish_prefix()
}

/// `t` with every leading repetition of the publish prefix removed.
pub open spec fn strip_publish_prefixes(t: Seq<char>) -> Seq<char>
    decreases t.len(),
{
    if has_publish_prefix(t) {
        strip_publish_prefixes(t.subrange(publish_prefix().len() as int, t.len() as int))
    } else {
        t
    }
}

fn starts_with_publish(t: &str) -> (r: bool)
    ensures
        r == has_publish_prefix(t@),
{
    proof {
        reveal_strlit("publish ");
    }
    let prefix = "publish ";
    assert(prefix@ =~= publish_prefix());
    let n = t.unicode_len();
    let m = prefix.unicode_len();
    if n < m {
        return false;
    }
    let mut i: usize = 0;
    while i < m
        invariant
            m == publish_prefix().len(),
            prefix@ == publish_prefix(),
            n == t@.len(),
            n >= m,
            i <= m,
            forall|j: int| 0 <= j < i ==> t@[j] == publish_prefix()[j],
        decreases m - i,
    {
        if t.get_char(i) != prefix.get_char(i) {
            return false;
        }
        i = i + 1;
    }
    assert(t@.subrange(0, m as int) =~= publish_prefix());
    true
}

/// The meaning of a line that has already been trimmed.
pub fn interpret_trimmed(t: &str) -> (r: CliInput)
    ensures
        match r {
            CliInput::Exit => t@ == "exit"@,
            CliInput::Publish(p) => t@ != "exit"@ && has_publish_prefix(t@) && p@
                == strip_publish_prefixes(t@),
            CliInput::Ignored => t@ != "exit"@ && !has_publish_prefix(t@),
        },
{
    proof {
        reveal_strlit("exit");
        reveal_strlit("publish ");
    }
    let exit = String::from_str("exit");
    let line = String::from_str(t);
    if line == exit {
        return CliInput::Exit;
    }
    if !starts_with_publish(t) {
        return CliInput::Ignored;
    }
    let mut rest: &str = t;
    while starts_with_publish(rest)
        invariant
            strip_publish_prefixes(rest@) == strip_publish_prefixes(t@),
        decreases rest@.len(),
    {
        let n = rest.unicode_len();
        assert(publish_prefix().len() == 8);
        rest = rest.substring_char(8, n);
    }
    CliInput::Publish(String::from_str(rest))
}

/// The meaning of a raw line: it is trimmed, then read as `exit`, as
/// `publish <prompt>`, or ignored.
pub fn parse_cli_line(line: &String) -> (r: CliInput)
    ensures
        ({
            let t = trimmed_of(line@);
            match r {
                CliInput::Exit => t == "exit"@,
                CliInput::Publish(p) => t != "exit"@ && has_publish_prefix(t) && p@
                    == strip_publish_prefixes(t),
                CliInput::Ignored => t != "exit"@ && !has_publish_prefix(t),
            }
        }),
{
    interpret_trimmed(trim_line(line.as_str()))
}

} // verus!
