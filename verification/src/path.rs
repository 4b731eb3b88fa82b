//! Host paths, compared component by component.
//!
//! A path is text in which `/` separates components. Empty components and
//! components that are a single `.` carry no meaning and are left out, but a
//! leading `/` (the root) and a leading `.` component count.

use vstd::prelude::*;
use crate::text::{copy_str, find, from_chars_range, index_of, to_chars};

verus! {

/// The component that stands for what opens the path: the root for a path
/// that begins with `/`, the current directory for one that begins with a
/// `.` component, nothing otherwise.
pub open spec fn leading(s: Seq<char>) -> Seq<Seq<char>> {
    if s.len() > 0 && s[0] == '/' {
        seq![seq!['/']]
    } else if s.len() > 0 && s[0] == '.' && (s.len() == 1 || s[1] == '/') {
        seq![seq!['.']]
    } else {
        Seq::empty()
    }
}

/// Whether the text between two separators is a component that counts.
pub open spec fn counts(segment: Seq<char>) -> bool {
    segment.len() > 0 && segment != seq!['.']
}

/// The components of `s` that count, in order.
pub open spec fn segments(s: Seq<char>) -> Seq<Seq<char>>
    decreases s.len(),
{
    if s.len() == 0 {
        Seq::empty()
    } else {
        let k = find(s, '/');
        let head = s.take(k);
        let rest = if 0 <= k < s.len() {
            s.skip(k + 1)
        } else {
            Seq::empty()
        };
        if counts(head) {
            seq![head] + segments(rest)
        } else {
            segments(rest)
        }
    }
}

/// The components of the path written `s`.
pub open spec fn components(s: Seq<char>) -> Seq<Seq<char>> {
    leading(s) + segments(s)
}

/// Whether the path with components `path` is `root` or lies below it.
pub open spec fn within(path: Seq<Seq<char>>, root: Seq<Seq<char>>) -> bool {
    root.is_prefix_of(path)
}

/// A path on the host, with its components.
#[derive(Debug)]
pub struct HostPath {
    text: String,
    parts: Vec<String>,
}

impl HostPath {
    #[verifier::type_invariant]
    spec fn parsed(self) -> bool {
        self.parts.deep_view() == components(self.text@)
    }

    /// The text of the path, as it was given.
    pub closed spec fn text(self) -> Seq<char> {
        self.text@
    }

    /// The components of the path.
    pub open spec fn components(self) -> Seq<Seq<char>> {
        components(self.text())
    }

    /// The path written `text`.
    pub fn new(text: &str) -> (r: HostPath)
        ensures
            r.text() == text@,
    {
        let chars = to_chars(text);
        let mut parts: Vec<String> = Vec::new();
        if chars.len() > 0 && chars[0] == '/' {
            parts.push(copy_str("/"));
        } else if chars.len() > 0 && chars[0] == '.' && (chars.len() == 1 || chars[1] == '/') {
            parts.push(copy_str("."));
        }
        proof {
            reveal_strlit("/");
            reveal_strlit(".");
            assert("/"@ =~= seq!['/']);
            assert("."@ =~= seq!['.']);
            assert(parts.deep_view() =~= leading(chars@));
            assert(chars@.skip(0) =~= chars@);
        }
        let mut pos: usize = 0;
        while pos < chars.len()
            invariant
                pos <= chars.len(),
                components(chars@) == parts.deep_view() + segments(chars@.skip(pos as int)),
            decreases chars.len() - pos,
        {
            let end = index_of(&chars, pos, '/');
            let ghost tail = chars@.skip(pos as int);
            let ghost before = parts.deep_view();
            assert(tail.take(end - pos) =~= chars@.subrange(pos as int, end as int));
            if end > pos && !(end - pos == 1 && chars[pos] == '.') {
                parts.push(from_chars_range(&chars, pos, end));
                assert(parts.deep_view() =~= before + seq![tail.take(end - pos)]);
            } else {
                assert(!counts(tail.take(end - pos))) by {
                    if end > pos {
                        assert(tail.take(end - pos) =~= seq!['.']);
                    }
                }
            }
            assert(counts(tail.take(end - pos)) ==> tail.take(end - pos) != seq!['.']);
            if end < chars.len() {
                assert(tail.skip(end - pos + 1) =~= chars@.skip(end + 1));
                pos = end + 1;
            } else {
                assert(chars@.skip(end as int) =~= Seq::<char>::empty());
                pos = end;
            }
        }
        assert(segments(chars@.skip(pos as int)) =~= Seq::<Seq<char>>::empty());
        assert(parts.deep_view() + Seq::<Seq<char>>::empty() =~= parts.deep_view());
        HostPath { text: copy_str(text), parts }
    }

    /// The text of the path.
    pub fn as_str(&self) -> (r: &str)
        ensures
            r@ == self.text(),
    {
        self.text.as_str()
    }

    /// Whether this path is `root` or lies below it: whether the components
    /// of `root` open the components of this path.
    pub fn starts_with(&self, root: &HostPath) -> (r: bool)
        ensures
            r == within(self.components(), root.components()),
    {
        proof {
            use_type_invariant(self);
            use_type_invariant(root);
        }
        if root.parts.len() > self.parts.len() {
            return false;
        }
        let mut i: usize = 0;
        while i < root.parts.len()
            invariant
                i <= root.parts.len() <= self.parts.len(),
                self.parts.deep_view() == self.components(),
                root.parts.deep_view() == root.components(),
                forall|j: int| 0 <= j < i ==> self.components()[j] == root.components()[j],
            decreases root.parts.len() - i,
        {
            assert(self.parts.deep_view()[i as int] == self.parts[i as int]@);
            assert(root.parts.deep_view()[i as int] == root.parts[i as int]@);
            if self.parts[i] != root.parts[i] {
                assert(self.components().subrange(0, root.components().len() as int)[i as int]
                    != root.components()[i as int]);
                return false;
            }
            i += 1;
        }
        assert(root.components() =~= self.components().subrange(
            0,
            root.components().len() as int,
        ));
        true
    }

    /// Whether the two paths have the same components.
    pub fn same(&self, other: &HostPath) -> (r: bool)
        ensures
            r == (self.components() == other.components()),
    {
        proof {
            use_type_invariant(self);
            use_type_invariant(other);
        }
        let r = self.parts.len() == other.parts.len() && self.starts_with(other);
        proof {
            let mine = self.components();
            let theirs = other.components();
            assert(self.parts.deep_view().len() == self.parts.len());
            assert(other.parts.deep_view().len() == other.parts.len());
            if r {
                assert(mine =~= theirs);
            } else if mine == theirs {
                assert(theirs =~= mine.subrange(0, theirs.len() as int));
            }
        }
        r
    }
}

impl Clone for HostPath {
    fn clone(&self) -> (r: Self)
        ensures
            r.text() == self.text(),
    {
        proof {
            use_type_invariant(self);
        }
        HostPath { text: self.text.clone(), parts: crate::text::copy_strings(&self.parts) }
    }
}

} // verus!
