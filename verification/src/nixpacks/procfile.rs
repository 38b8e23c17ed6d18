//! The one directive of a Procfile that the planner reads.

use vstd::prelude::*;
use vstd::string::*;
use super::text::{find_line_end, first_line, line_end, to_chars, trim_bounds, trimmed};

verus! {

/// The prefix that marks the web process: `web:` and a space.
pub open spec fn web_prefix() -> Seq<char> {
    seq!['w', 'e', 'b', ':', ' ']
}

/// The command of the web process: where the first line of `contents`
/// begins with [`web_prefix`], the rest of that line without the white space
/// around it. Later lines and other process types are not looked at.
pub open spec fn web_command(contents: Seq<char>) -> Option<Seq<char>> {
    let line = first_line(contents);
    if line.len() >= 5 && line.subrange(0, 5) == web_prefix() {
        Some(trimmed(line.subrange(5, line.len() as int)))
    } else {
        None
    }
}

/// A stretch without a line feed that a line feed or the end of the text
/// follows ends the line it stands in.
pub proof fn lemma_line_end_at(s: Seq<char>, i: int, k: int)
    requires
        0 <= i <= k <= s.len(),
        forall|j: int| i <= j < k ==> s[j] != '\n',
        k == s.len() || s[k] == '\n',
    ensures
        line_end(s, i) == k,
    decreases k - i,
{
    if i < k {
        lemma_line_end_at(s, i + 1, k);
    }
}

/// A Procfile whose first line is `web: ` followed by `command` names that
/// command, without the white space around it, whatever lines follow.
pub proof fn lemma_web_line(command: Seq<char>, rest: Seq<char>)
    requires
        forall|j: int| 0 <= j < command.len() ==> command[j] != '\n',
        rest.len() == 0 || rest[0] == '\n',
    ensures
        web_command(web_prefix() + command + rest) == Some(trimmed(command)),
{
    let s = web_prefix() + command + rest;
    let k = (5 + command.len()) as int;
    assert forall|j: int| 0 <= j < k implies s[j] != '\n' by {
        if j >= 5 {
            assert(s[j] == command[j - 5]);
        }
    }
    if rest.len() > 0 {
        assert(s[k] == rest[0]);
    }
    lemma_line_end_at(s, 0, k);
    let line = first_line(s);
    assert(line =~= web_prefix() + command);
    assert(line.subrange(0, 5) =~= web_prefix());
    assert(line.subrange(5, line.len() as int) =~= command);
}

/// Reads the command of the web process from the text of a Procfile.
pub fn parse_web_command(contents: &str) -> (r: Option<String>)
    ensures
        r.deep_view() == web_command(contents@),
{
    let chars = to_chars(contents);
    let end = find_line_end(&chars);
    let ghost line = first_line(contents@);
    if end >= 5 && chars[0] == 'w' && chars[1] == 'e' && chars[2] == 'b' && chars[3] == ':'
        && chars[4] == ' ' {
        let (a, b) = trim_bounds(&chars, 5, end);
        proof {
            assert(line.subrange(0, 5) =~= web_prefix());
            assert(line.subrange(5, line.len() as int) =~= chars@.subrange(5, end as int));
        }
        Some(String::from_str(contents.substring_char(a, b)))
    } else {
        proof {
            if line.len() >= 5 && line.subrange(0, 5) == web_prefix() {
                assert(line.subrange(0, 5)[0] == 'w');
                assert(line.subrange(0, 5)[1] == 'e');
                assert(line.subrange(0, 5)[2] == 'b');
                assert(line.subrange(0, 5)[3] == ':');
                assert(line.subrange(0, 5)[4] == ' ');
            }
        }
        None
    }
}

} // verus!
