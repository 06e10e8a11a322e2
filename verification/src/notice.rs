//! The notice that tells the publishing job whose catalog changed, and how the
//! job reads the owner back out of it.
use vstd::prelude::*;
use vstd::string::*;

verus! {

/// The label a notice starts with.
pub open spec fn notice_label() -> Seq<char> {
    seq!['o', 'w', 'n', 'e', 'r']
}

/// The separator between a notice's label and its owner.
pub open spec fn notice_separator() -> Seq<char> {
    seq![':', ' ']
}

/// The notice published when the data of `owner` changes: `owner: <owner>`.
pub open spec fn notice_for(owner: Seq<char>) -> Seq<char> {
    notice_label() + notice_separator() + owner
}

/// A separator starts at index `i` of `s`.
pub open spec fn separator_at(s: Seq<char>, i: int) -> bool {
    0 <= i && i + 1 < s.len() && s[i] == ':' && s[i + 1] == ' '
}

/// The first separator of `s` starts at index `i`.
pub open spec fn first_separator_at(s: Seq<char>, i: int) -> bool {
    separator_at(s, i) && forall|j: int| 0 <= j < i ==> !separator_at(s, j)
}

/// What follows the first separator of a message, if it has one: the owner
/// that the message names.
pub open spec fn owner_in(message: Seq<char>) -> Option<Seq<char>> {
    if exists|i: int| first_separator_at(message, i) {
        let i = choose|i: int| first_separator_at(message, i);
        Some(message.skip(i + 2))
    } else {
        None
    }
}

/// A message has at most one first separator.
pub proof fn lemma_first_separator_unique(s: Seq<char>, i: int, j: int)
    requires
        first_separator_at(s, i),
        first_separator_at(s, j),
    ensures
        i == j,
{
    if i < j {
        assert(!separator_at(s, i));
    } else if j < i {
        assert(!separator_at(s, j));
    }
}

/// A message with a separator at `i` has a first separator, at or before `i`.
proof fn lemma_first_separator_exists(s: Seq<char>, i: int) -> (k: int)
    requires
        separator_at(s, i),
    ensures
        first_separator_at(s, k),
        k <= i,
    decreases i,
{
    if forall|j: int| 0 <= j < i ==> !separator_at(s, j) {
        i
    } else {
        let j = choose|j: int| 0 <= j < i && separator_at(s, j);
        lemma_first_separator_exists(s, j)
    }
}

/// What [`owner_in`] gives when the first separator is known.
proof fn lemma_owner_in_at(s: Seq<char>, i: int)
    requires
        first_separator_at(s, i),
    ensures
        owner_in(s) == Some(s.skip(i + 2)),
{
    let k = choose|k: int| first_separator_at(s, k);
    lemma_first_separator_unique(s, i, k);
}

/// The notice for `owner` is the text `owner: ` followed by the owner.
pub proof fn law_notice_text(owner: Seq<char>)
    ensures
        notice_for(owner) == "owner: "@ + owner,
{
    reveal_strlit("owner: ");
    assert(notice_for(owner) =~= "owner: "@ + owner);
}

/// Reading a message gives the text after its first `": "`, or nothing when
/// the message holds no `": "`.
pub proof fn law_owner_follows_first_separator(message: Seq<char>)
    ensures
        match owner_in(message) {
            Some(o) => exists|i: int|
                {
                    &&& 0 <= i
                    &&& i + 2 + o.len() == message.len()
                    &&& message[i] == ':'
                    &&& message[i + 1] == ' '
                    &&& #[trigger] message.skip(i + 2) == o
                    &&& forall|j: int| 0 <= j < i ==> !(#[trigger] message[j] == ':' && message[j + 1] == ' ')
                },
            None => forall|i: int|
                0 <= i && i + 1 < message.len() ==> !(#[trigger] message[i] == ':' && message[i + 1]
                == ' '),
        },
{
    if exists|i: int| first_separator_at(message, i) {
        let i = choose|i: int| first_separator_at(message, i);
        lemma_owner_in_at(message, i);
        let o = message.skip(i + 2);
        assert(forall|j: int| 0 <= j < i ==> !(#[trigger] message[j] == ':' && message[j + 1] == ' ')) by {
            assert forall|j: int| 0 <= j < i implies !(#[trigger] message[j] == ':' && message[j + 1] == ' ') by {
                assert(!separator_at(message, j));
            }
        }
        assert(i + 2 + o.len() == message.len());
    } else {
        assert forall|i: int| 0 <= i && i + 1 < message.len() implies !(#[trigger] message[i]
            == ':' && message[i + 1] == ' ') by {
            if message[i] == ':' && message[i + 1] == ' ' {
                assert(separator_at(message, i));
                let k = lemma_first_separator_exists(message, i);
                assert(first_separator_at(message, k));
            }
        }
    }
}

/// Builds the notice for `owner`.
pub fn owner_notice(owner: &str) -> (res: String)
    ensures
        res@ == notice_for(owner@),
        res@ == "owner: "@ + owner@,
{
    proof {
        reveal_strlit("owner: ");
    }
    assert("owner: "@ =~= notice_label() + notice_separator());
    let label = String::from_str("owner: ");
    label.concat(owner)
}

/// Reads the owner out of a notice: the text after the first `": "`, or
/// `None` when the message holds no `": "`.
pub fn owner_from_notice(message: &str) -> (res: Option<String>)
    ensures
        match res {
            Some(owner) => owner_in(message@) == Some(owner@),
            None => owner_in(message@) is None,
        },
{
    let n = message.unicode_len();
    let mut i: usize = 0;
    while i < n && i + 1 < n
        invariant
            n == message@.len(),
            i <= n,
            forall|j: int| 0 <= j < i ==> !separator_at(message@, j),
        decreases n - i,
    {
        if message.get_char(i) == ':' && message.get_char(i + 1) == ' ' {
            let rest = message.substring_char(i + 2, n);
            proof {
                lemma_owner_in_at(message@, i as int);
                assert(rest@ =~= message@.skip(i + 2));
            }
            return Some(String::from_str(rest));
        }
        i = i + 1;
    }
    assert(!exists|j: int| first_separator_at(message@, j));
    None
}

/// Reading a notice gives back the owner it was made for, whatever the
/// owner's name holds (a `": "` in it included).
pub proof fn law_notice_names_owner(owner: Seq<char>)
    ensures
        owner_in(notice_for(owner)) == Some(owner),
{
    let s = notice_for(owner);
    assert(s[5] == ':' && s[6] == ' ');
    assert forall|j: int| 0 <= j < 5 implies !separator_at(s, j) by {
        assert(s[j] == notice_label()[j]);
    }
    lemma_owner_in_at(s, 5);
    assert(s.skip(7) =~= owner);
}

} // verus!
