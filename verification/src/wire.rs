//! Paths as they cross the wire between the two halves of the application.

use vstd::prelude::*;
use vstd::string::{StrSliceExecFns, StringExecFns};

verus! {

/// A text with every `from` replaced by `to`.
pub open spec fn turned(text: Seq<char>, from: char, to: char) -> Seq<char> {
    text.map_values(
        |c: char|
            if c == from {
                to
            } else {
                c
            },
    )
}

/// Whether a character takes one byte.
pub open spec fn one_byte(c: char) -> bool {
    (c as u32) < 128
}

/// A path as the back end takes it from the wire: separators lean back, and
/// a path that starts with a bare drive letter gets its colon and its root.
pub open spec fn backend_path(text: Seq<char>) -> Seq<char> {
    let t = turned(text, '/', '\\');
    if t.len() == 1 && one_byte(t[0]) {
        t + seq![':', '\\']
    } else if t.len() == 2 && one_byte(t[0]) && t[1] == ':' {
        t.push('\\')
    } else if t.len() >= 2 && one_byte(t[0]) && t[1] == '\\' {
        t.insert(1, ':')
    } else {
        t
    }
}

/// A path as the front end takes it from the wire: separators lean forward.
pub open spec fn frontend_path(text: Seq<char>) -> Seq<char> {
    turned(text, '\\', '/')
}

/// Replaces every `from` in a text by `to`.
pub fn turn(text: &str, from: char, to: char) -> (r: String)
    ensures
        r@ == turned(text@, from, to),
{
    let len: usize = text.unicode_len();
    let mut out = String::new();
    let mut i: usize = 0;
    while i < len
        invariant
            len == text@.len(),
            i <= len,
            out@ == turned(text@.take(i as int), from, to),
        decreases len - i,
    {
        let c = text.get_char(i);
        if c == from {
            out.push(to);
        } else {
            out.push(c);
        }
        assert(turned(text@.take(i + 1), from, to) =~= turned(text@.take(i as int), from, to).push(
            if c == from {
                to
            } else {
                c
            },
        ));
        i += 1;
    }
    assert(text@.take(len as int) =~= text@);
    out
}

fn takes_one_byte(c: char) -> (r: bool)
    ensures
        r == one_byte(c),
{
    (c as u32) < 128
}

/// Brings a path from the wire into the form that the back end works with.
pub fn parse_path(path_str: &str) -> (r: String)
    ensures
        r@ == backend_path(path_str@),
{
    let mut out = turn(path_str, '/', '\\');
    let len: usize = out.as_str().unicode_len();
    if len == 0 || !takes_one_byte(out.as_str().get_char(0)) {
        return out;
    }
    if len == 1 {
        out.push(':');
        out.push('\\');
        assert(out@ =~= turned(path_str@, '/', '\\') + seq![':', '\\']);
    } else if len == 2 && out.as_str().get_char(1) == ':' {
        out.push('\\');
    } else if out.as_str().get_char(1) == '\\' {
        let ghost t = out@;
        let head = out.as_str().get_char(0);
        let tail = out.as_str().substring_char(1, len);
        let mut fixed = String::new();
        fixed.push(head);
        fixed.push(':');
        fixed.append(tail);
        assert(fixed@ =~= t.insert(1, ':'));
        return fixed;
    }
    out
}

/// Brings a path from the wire into the form that the front end works with.
pub fn parse_path_frontend(path_str: &str) -> (r: String)
    ensures
        r@ == frontend_path(path_str@),
{
    turn(path_str, '\\', '/')
}

} // verus!
