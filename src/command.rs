use vstd::prelude::*;
use vstd::string::*;
use crate::keys::{trim_of, trimmed};

verus! {

/// What a shell command produced.
#[derive(Clone, Debug, PartialEq, Eq)]
pub struct CommandResult {
    pub exit_code: i32,
    pub stdout: String,
    pub stderr: String,
}

impl CommandResult {
    /// The result of a command that ran nothing: exit code 0, no output.
    pub fn empty() -> (r: CommandResult)
        ensures
            r.exit_code == 0,
            r.stdout@.len() == 0,
            r.stderr@.len() == 0,
    {
        CommandResult { exit_code: 0, stdout: String::new(), stderr: String::new() }
    }
}

/// The first index at or after `i` that holds a space, or the length of `s`
/// when there is none.
pub open spec fn space_from(s: Seq<char>, i: int) -> int
    decreases s.len() - i,
{
    if i >= s.len() {
        s.len() as int
    } else if s[i] == ' ' {
        i
    } else {
        space_from(s, i + 1)
    }
}

proof fn lemma_space_from(s: Seq<char>, i: int)
    requires
        0 <= i <= s.len(),
    ensures
        i <= space_from(s, i) <= s.len(),
        space_from(s, i) < s.len() ==> s[space_from(s, i)] == ' ',
    decreases s.len() - i,
{
    if i < s.len() && s[i] != ' ' {
        lemma_space_from(s, i + 1);
    }
}

/// The words of `s` from index `start` on: split at each single space,
/// except that once a word holds a double quote, the rest of the text is
/// one last word.
pub open spec fn parts_from(s: Seq<char>, start: int) -> Seq<Seq<char>>
    decreases s.len() - start,
    via parts_from_decreases
{
    if start < 0 || start >= s.len() {
        Seq::empty()
    } else {
        let k = space_from(s, start);
        if k >= s.len() || s.subrange(start, k).contains('"') {
            seq![s.subrange(start, s.len() as int)]
        } else {
            seq![s.subrange(start, k)] + parts_from(s, k + 1)
        }
    }
}

#[via_fn]
proof fn parts_from_decreases(s: Seq<char>, start: int) {
    if 0 <= start < s.len() {
        lemma_space_from(s, start);
    }
}

/// The program and arguments of `command`: the trimmed text split at each
/// single space, with everything from the first word that holds a double
/// quote on kept as one last argument. An empty or blank command has none.
pub fn split_command(command: &str) -> (r: Vec<String>)
    ensures
        r@.map_values(|p: String| p@) == parts_from(trim_of(command@), 0),
{
    let t = trimmed(command);
    let s = t.as_str();
    let n = s.unicode_len();
    let mut parts: Vec<String> = Vec::new();
    let mut start: usize = 0;
    assert(parts@.map_values(|p: String| p@) =~= Seq::<Seq<char>>::empty());
    while start < n
        invariant
            n == s@.len(),
            s@ == trim_of(command@),
            start <= n,
            parts@.map_values(|p: String| p@) + parts_from(s@, start as int) == parts_from(
                s@,
                0,
            ),
        decreases n - start,
    {
        let ghost before = parts@;
        let mut k: usize = start;
        let mut quote = false;
        loop
            invariant
                n == s@.len(),
                start < n,
                start <= k <= n,
                space_from(s@, start as int) == space_from(s@, k as int),
                quote == s@.subrange(start as int, k as int).contains('"'),
            ensures
                start <= k <= n,
                k == n || s@[k as int] == ' ',
                space_from(s@, start as int) == space_from(s@, k as int),
                quote == s@.subrange(start as int, k as int).contains('"'),
            decreases n - k,
        {
            if k >= n {
                break;
            }
            let c = s.get_char(k);
            if c == ' ' {
                break;
            }
            proof {
                let a = s@.subrange(start as int, k as int);
                let b = s@.subrange(start as int, k as int + 1);
                assert(b =~= a.push(c));
                if b.contains('"') && !a.contains('"') {
                    let j = choose|j: int| 0 <= j < b.len() && b[j] == '"';
                    assert(j == a.len());
                }
                if a.contains('"') {
                    let j = choose|j: int| 0 <= j < a.len() && a[j] == '"';
                    assert(b[j] == '"');
                }
            }
            if c == '"' {
                quote = true;
                assert(s@.subrange(start as int, k as int + 1)[k - start] == '"');
            }
            k = k + 1;
        }
        assert(k == space_from(s@, start as int));
        let word: &str;
        if k >= n || quote {
            word = s.substring_char(start, n);
            start = n;
        } else {
            word = s.substring_char(start, k);
            start = k + 1;
        }
        parts.push(String::from_str(word));
        assert(parts@.map_values(|p: String| p@) =~= before.map_values(|p: String| p@).push(
            word@,
        ));
        assert(parts@.map_values(|p: String| p@) + parts_from(s@, start as int) =~= before.map_values(
            |p: String| p@,
        ) + (seq![word@] + parts_from(s@, start as int)));
    }
    parts
}

} // verus!
