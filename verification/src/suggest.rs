//! Follow-up actions, read off the bulleted lines of a narrative.
use crate::text::{
    chars_of, from_chars, owned, shorter_than, slice_chars, trim_chars, trimmed, utf8_len, views,
};
use vstd::prelude::*;

verus! {

/// At most this many suggestions are passed on.
pub const MAX_SUGGESTIONS: usize = 5;

/// A suggestion has to be shorter than this, counted in bytes.
pub const MAX_SUGGESTION_BYTES: usize = 100;

/// Whether a character opens a bulleted line.
pub open spec fn is_bullet(c: char) -> bool {
    c == '-' || c == '*' || c == '•'
}

/// A line without the bullets and blanks at its start.
pub open spec fn strip_bullets(s: Seq<char>) -> Seq<char>
    decreases s.len(),
{
    if s.len() > 0 && (is_bullet(s[0]) || s[0] == ' ') {
        strip_bullets(s.drop_first())
    } else {
        s
    }
}

/// The suggestion that a line holds: the line has to open, after white
/// space, with a bullet; what follows the bullets and blanks, without white
/// space around it, is the suggestion, unless it is empty or too long.
pub open spec fn suggestion_on(line: Seq<char>) -> Option<Seq<char>> {
    let l = trimmed(line);
    if l.len() > 0 && is_bullet(l[0]) {
        let action = trimmed(strip_bullets(l));
        if action.len() > 0 && utf8_len(action) < MAX_SUGGESTION_BYTES {
            Some(action)
        } else {
            None
        }
    } else {
        None
    }
}

/// The lines of a text: what stands between line feeds.
pub open spec fn split_lines(s: Seq<char>) -> Seq<Seq<char>>
    decreases s.len(),
{
    if s.len() == 0 {
        seq![Seq::empty()]
    } else if s.last() == '\n' {
        split_lines(s.drop_last()).push(Seq::empty())
    } else {
        let before = split_lines(s.drop_last());
        before.update(before.len() - 1, before.last().push(s.last()))
    }
}

/// The suggestions that a list of lines holds, in the order of the lines.
pub open spec fn found_suggestions(lines: Seq<Seq<char>>) -> Seq<Seq<char>>
    decreases lines.len(),
{
    if lines.len() == 0 {
        Seq::empty()
    } else {
        let before = found_suggestions(lines.drop_last());
        match suggestion_on(lines.last()) {
            Some(action) => before.push(action),
            None => before,
        }
    }
}

/// The follow-up actions that a narrative suggests: the first five
/// suggestions of its lines, or the two stock actions where it holds none.
pub open spec fn suggested_actions(narrative: Seq<char>) -> Seq<Seq<char>> {
    let found = found_suggestions(split_lines(narrative));
    if found.len() == 0 {
        seq!["look around"@, "check inventory"@]
    } else if found.len() > MAX_SUGGESTIONS {
        found.take(MAX_SUGGESTIONS as int)
    } else {
        found
    }
}

proof fn lemma_split_lines_nonempty(s: Seq<char>)
    ensures
        split_lines(s).len() >= 1,
    decreases s.len(),
{
    if s.len() > 0 {
        lemma_split_lines_nonempty(s.drop_last());
    }
}

/// Whether a character opens a bulleted line.
fn char_is_bullet(c: char) -> (r: bool)
    ensures
        r == is_bullet(c),
{
    c == '-' || c == '*' || c == '•'
}

/// Whether a text is shorter than a suggestion may be.
fn short_enough(chars: &Vec<char>) -> (r: bool)
    ensures
        r == (utf8_len(chars@) < MAX_SUGGESTION_BYTES),
{
    shorter_than(chars, MAX_SUGGESTION_BYTES)
}

/// Takes the bullets and blanks off the start of a line.
fn strip_bullet_chars(chars: &Vec<char>) -> (r: Vec<char>)
    ensures
        r@ == strip_bullets(chars@),
{
    let mut a: usize = 0;
    proof {
        assert(chars@.skip(0) =~= chars@);
    }
    while a < chars.len() && (char_is_bullet(chars[a]) || chars[a] == ' ')
        invariant
            a <= chars.len(),
            strip_bullets(chars@) == strip_bullets(chars@.skip(a as int)),
        decreases chars.len() - a,
    {
        proof {
            assert(chars@.skip(a as int).drop_first() =~= chars@.skip(a + 1));
        }
        a += 1;
    }
    proof {
        let rest = chars@.skip(a as int);
        if a < chars.len() {
            assert(rest[0] == chars@[a as int]);
        }
        assert(rest =~= chars@.subrange(a as int, chars@.len() as int));
    }
    slice_chars(chars, a, chars.len())
}

/// The suggestion that a line holds.
pub fn suggestion_from(line: &Vec<char>) -> (r: Option<String>)
    ensures
        crate::model::opt_view(r) == suggestion_on(line@),
{
    let l = trim_chars(line);
    if l.len() > 0 && char_is_bullet(l[0]) {
        let stripped = strip_bullet_chars(&l);
        let action = trim_chars(&stripped);
        if action.len() > 0 && short_enough(&action) {
            Some(from_chars(&action))
        } else {
            None
        }
    } else {
        None
    }
}

/// The follow-up actions that a narrative suggests.
pub fn extract_suggested_actions(narrative: &str) -> (r: Vec<String>)
    ensures
        views(r@) == suggested_actions(narrative@),
{
    let chars = chars_of(narrative);
    let mut found: Vec<String> = Vec::new();
    let mut line: Vec<char> = Vec::new();
    let mut i: usize = 0;
    proof {
        assert(chars@.take(0) =~= Seq::<char>::empty());
        assert(split_lines(chars@.take(0)).drop_last() =~= Seq::<Seq<char>>::empty());
        assert(views(found@) =~= Seq::<Seq<char>>::empty());
    }
    while i < chars.len()
        invariant
            i <= chars.len(),
            split_lines(chars@.take(i as int)).len() >= 1,
            line@ == split_lines(chars@.take(i as int)).last(),
            views(found@) == found_suggestions(split_lines(chars@.take(i as int)).drop_last()),
        decreases chars.len() - i,
    {
        proof {
            assert(chars@.take(i + 1).drop_last() =~= chars@.take(i as int));
            assert(chars@.take(i + 1).last() == chars@[i as int]);
            lemma_split_lines_nonempty(chars@.take(i + 1));
        }
        let ghost before = split_lines(chars@.take(i as int));
        if chars[i] == '\n' {
            let ghost prior = views(found@);
            match suggestion_from(&line) {
                Some(action) => {
                    found.push(action);
                    proof {
                        assert(views(found@) =~= prior.push(suggestion_on(line@)->0));
                    }
                },
                None => {},
            }
            line = Vec::new();
            proof {
                assert(before.push(Seq::empty()).drop_last() =~= before);
                assert(before.drop_last().push(before.last()) =~= before);
            }
        } else {
            line.push(chars[i]);
            proof {
                let after = before.update(before.len() - 1, before.last().push(chars@[i as int]));
                assert(after.drop_last() =~= before.drop_last());
            }
        }
        i += 1;
    }
    proof {
        assert(chars@.take(i as int) =~= chars@);
        let all = split_lines(chars@);
        assert(all.drop_last().push(all.last()) =~= all);
    }
    let ghost prior = views(found@);
    match suggestion_from(&line) {
        Some(action) => {
            found.push(action);
            proof {
                assert(views(found@) =~= prior.push(suggestion_on(line@)->0));
            }
        },
        None => {},
    }
    if found.len() == 0 {
        found.push(owned("look around"));
        found.push(owned("check inventory"));
        proof {
            assert(views(found@) =~= seq!["look around"@, "check inventory"@]);
        }
    } else if found.len() > MAX_SUGGESTIONS {
        let ghost all = views(found@);
        found.truncate(MAX_SUGGESTIONS);
        proof {
            assert(views(found@) =~= all.take(MAX_SUGGESTIONS as int));
        }
    }
    found
}

} // verus!
