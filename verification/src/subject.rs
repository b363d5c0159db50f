//! Subject namespacing: a root is prepended to a logical subject on the way
//! to the wire and removed on the way back.

use vstd::prelude::*;

verus! {

/// The subject as it travels on the wire: `root`, a dot and `subject`, or
/// `subject` alone where there is no root.
pub open spec fn qualified(root: Seq<char>, subject: Seq<char>) -> Seq<char> {
    if root.len() == 0 {
        subject
    } else {
        root + seq!['.'] + subject
    }
}

/// The logical subject of a wire subject: what follows the root and its dot.
/// The prefix is measured, not compared: under a root of `n` characters the
/// first `n + 1` characters are dropped, and a wire subject no longer than
/// that leaves nothing.
pub open spec fn unqualified(root: Seq<char>, wire: Seq<char>) -> Seq<char> {
    if root.len() == 0 {
        wire
    } else if wire.len() <= root.len() {
        Seq::empty()
    } else {
        wire.skip(root.len() as int + 1)
    }
}

/// Removing the namespace from a subject that was given it returns the
/// subject, whatever the root.
pub proof fn lemma_unqualified_qualified(root: Seq<char>, subject: Seq<char>)
    ensures
        unqualified(root, qualified(root, subject)) == subject,
{
    if root.len() > 0 {
        assert((root + seq!['.'] + subject).skip(root.len() as int + 1) =~= subject);
    }
}

/// Puts `subject` under `root`.
pub fn qualify(root: &str, subject: &str) -> (wire: String)
    ensures
        wire@ == qualified(root@, subject@),
{
    if root.is_empty() {
        subject.to_owned()
    } else {
        proof {
            reveal_strlit(".");
        }
        let mut wire = root.to_owned();
        wire.append(".");
        wire.append(subject);
        assert(wire@ =~= root@ + seq!['.'] + subject@);
        wire
    }
}

/// Takes `wire` out from under `root`.
pub fn unqualify(root: &str, wire: &str) -> (subject: String)
    ensures
        subject@ == unqualified(root@, wire@),
{
    if root.is_empty() {
        wire.to_owned()
    } else {
        let skip = root.unicode_len();
        let len = wire.unicode_len();
        if len <= skip {
            String::new()
        } else {
            wire.substring_char(skip + 1, len).to_owned()
        }
    }
}

} // verus!
