//! Byte-level questions asked of the text between two syntax nodes.
use vstd::prelude::*;

verus! {

pub const NEWLINE: u8 = 10;

pub const EQUALS: u8 = 61;

/// The keyword `else`, as bytes.
pub open spec fn else_word() -> Seq<u8> {
    seq![101u8, 108u8, 115u8, 101u8]
}

/// The text's last byte is `=`.
pub open spec fn spec_ends_with_equals(t: Seq<u8>) -> bool {
    t.len() > 0 && t.last() == EQUALS
}

/// The text holds a line break.
pub open spec fn spec_has_newline(t: Seq<u8>) -> bool {
    exists|j: int| 0 <= j < t.len() && t[j] == NEWLINE
}

/// The word `else` starts at `i`.
pub open spec fn else_at(t: Seq<u8>, i: int) -> bool {
    0 <= i && i + 4 <= t.len() && t.subrange(i, i + 4) == else_word()
}

/// `i` is where the first `else` of the text starts.
pub open spec fn first_else_at(t: Seq<u8>, i: int) -> bool {
    else_at(t, i) && forall|k: int| 0 <= k < i ==> !else_at(t, k)
}

/// A line break follows the first `else` of the text.
pub open spec fn spec_newline_after_else(t: Seq<u8>) -> bool {
    exists|i: int| first_else_at(t, i) && spec_has_newline(t.subrange(i, t.len() as int))
}

pub fn ends_with_equals(t: &Vec<u8>) -> (r: bool)
    ensures
        r == spec_ends_with_equals(t@),
{
    t.len() > 0 && t[t.len() - 1] == EQUALS
}

/// Whether a line break occurs at or after `from`.
pub fn has_newline_from(t: &Vec<u8>, from: usize) -> (r: bool)
    requires
        from <= t@.len(),
    ensures
        r == spec_has_newline(t@.subrange(from as int, t@.len() as int)),
{
    let mut i: usize = from;
    while i < t.len()
        invariant
            from <= i <= t@.len(),
            forall|j: int| from <= j < i ==> t@[j] != NEWLINE,
        decreases t.len() - i,
    {
        if t[i] == NEWLINE {
            assert(t@.subrange(from as int, t@.len() as int)[i - from] == NEWLINE);
            return true;
        }
        i = i + 1;
    }
    proof {
        let s = t@.subrange(from as int, t@.len() as int);
        assert forall|j: int| 0 <= j < s.len() implies s[j] != NEWLINE by {
            assert(s[j] == t@[j + from]);
        }
    }
    false
}

fn else_at_exec(t: &Vec<u8>, i: usize) -> (r: bool)
    requires
        i < t@.len(),
    ensures
        r == else_at(t@, i as int),
{
    if t.len() - i < 4 {
        return false;
    }
    let r = t[i] == 101u8 && t[i + 1] == 108u8 && t[i + 2] == 115u8 && t[i + 3] == 101u8;
    proof {
        let w = t@.subrange(i as int, i + 4);
        if r {
            assert(w =~= else_word());
        } else {
            assert(w[0] != 101u8 || w[1] != 108u8 || w[2] != 115u8 || w[3] != 101u8);
            assert(w != else_word());
        }
    }
    r
}

/// The position of the first `else` in the text.
pub fn find_else(t: &Vec<u8>) -> (r: Option<usize>)
    ensures
        match r {
            Some(i) => first_else_at(t@, i as int),
            None => forall|k: int| !else_at(t@, k),
        },
{
    let mut i: usize = 0;
    while i < t.len()
        invariant
            i <= t@.len(),
            forall|k: int| 0 <= k < i ==> !else_at(t@, k),
        decreases t.len() - i,
    {
        if else_at_exec(t, i) {
            return Some(i);
        }
        i = i + 1;
    }
    None
}

/// Whether a line break follows the first `else` of the text.
pub fn newline_after_else(t: &Vec<u8>) -> (r: bool)
    ensures
        r == spec_newline_after_else(t@),
{
    match find_else(t) {
        Some(i) => {
            let r = has_newline_from(t, i);
            proof {
                if !r {
                    assert forall|j: int| first_else_at(t@, j) implies !spec_has_newline(
                        t@.subrange(j, t@.len() as int),
                    ) by {
                        if j < i {
                            assert(!else_at(t@, j));
                        } else if j > i {
                            assert(!else_at(t@, i as int));
                        }
                    }
                }
            }
            r
        },
        None => false,
    }
}

} // verus!
