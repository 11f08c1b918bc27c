use vstd::prelude::*;
use crate::text::{
    decimal, decimal_string, is_digit, lemma_canonical_is_decimal, lemma_decimal_canonical,
    parse_decimal, parsed_decimal, starts_with, str_equal,
};

verus! {

/// What a button on a vetting message does; its text form is the button's
/// custom id.
#[derive(PartialEq, Eq, Structural, Debug, Clone, Copy)]
pub enum ButtonCustomId {
    /// Approve the confession of the user (first) for the channel (second).
    ApproveConfession(u64, u64),
    /// Deny the confession.
    DenyConfession(),
}

/// The text that starts the custom id of an approve button.
pub open spec fn approve_prefix() -> Seq<char> {
    "approve_confession:"@
}

/// The custom id of a deny button.
pub open spec fn deny_text() -> Seq<char> {
    "deny_confession"@
}

/// The custom id that a button carries.
pub open spec fn id_text(b: ButtonCustomId) -> Seq<char> {
    match b {
        ButtonCustomId::ApproveConfession(user, channel) => approve_prefix() + decimal(
            user as nat,
        ) + seq![':'] + decimal(channel as nat),
        ButtonCustomId::DenyConfession() => deny_text(),
    }
}

/// `k` is the position of the first ':' in `s`.
pub open spec fn first_colon_at(s: Seq<char>, k: int) -> bool {
    &&& 0 <= k < s.len()
    &&& s[k] == ':'
    &&& forall|j: int| 0 <= j < k ==> s[j] != ':'
}

/// Reads "<user>:<channel>", both canonical decimals.
pub open spec fn parse_pair(s: Seq<char>) -> Option<(u64, u64)> {
    if exists|k: int| first_colon_at(s, k) {
        let k = choose|k: int| first_colon_at(s, k);
        match (parsed_decimal(s.take(k)), parsed_decimal(s.skip(k + 1))) {
            (Some(user), Some(channel)) => Some((user, channel)),
            _ => None,
        }
    } else {
        None
    }
}

/// The button that a custom id names, if it names one.
pub open spec fn parse_id(s: Seq<char>) -> Option<ButtonCustomId> {
    if s == deny_text() {
        Some(ButtonCustomId::DenyConfession())
    } else if approve_prefix().len() <= s.len() && s.take(approve_prefix().len() as int)
        == approve_prefix() {
        match parse_pair(s.skip(approve_prefix().len() as int)) {
            Some((user, channel)) => Some(ButtonCustomId::ApproveConfession(user, channel)),
            None => None,
        }
    } else {
        None
    }
}

proof fn lemma_first_colon_unique(s: Seq<char>, k1: int, k2: int)
    requires
        first_colon_at(s, k1),
        first_colon_at(s, k2),
    ensures
        k1 == k2,
{
    if k1 < k2 {
        assert(s[k1] != ':');
    } else if k2 < k1 {
        assert(s[k2] != ':');
    }
}

fn find_colon(s: &str) -> (r: Option<usize>)
    ensures
        match r {
            Some(k) => first_colon_at(s@, k as int),
            None => !exists|k: int| first_colon_at(s@, k),
        },
{
    let n = s.unicode_len();
    let mut i: usize = 0;
    while i < n
        invariant
            n == s@.len(),
            i <= n,
            forall|j: int| 0 <= j < i ==> s@[j] != ':',
        decreases n - i,
    {
        if s.get_char(i) == ':' {
            return Some(i);
        }
        i = i + 1;
    }
    proof {
        assert forall|k: int| !first_colon_at(s@, k) by {
            if first_colon_at(s@, k) {
                assert(s@[k] != ':');
            }
        }
    }
    None
}

impl ButtonCustomId {
    /// The custom id text of this button.
    pub fn to_string(&self) -> (s: String)
        ensures
            s@ == id_text(*self),
    {
        match self {
            ButtonCustomId::ApproveConfession(user, channel) => {
                let mut s = String::from_str("approve_confession:");
                s.append(decimal_string(*user).as_str());
                s.append(":");
                s.append(decimal_string(*channel).as_str());
                proof {
                    reveal_strlit(":");
                    assert(s@ =~= id_text(*self));
                }
                s
            },
            ButtonCustomId::DenyConfession() => String::from_str("deny_confession"),
        }
    }

    /// The button that a custom id text names; `None` for any other text.
    pub fn from_string(s: &str) -> (r: Option<ButtonCustomId>)
        ensures
            r == parse_id(s@),
    {
        if str_equal(s, "deny_confession") {
            return Some(ButtonCustomId::DenyConfession());
        }
        if !starts_with(s, "approve_confession:") {
            return None;
        }
        let p = "approve_confession:".unicode_len();
        let n = s.unicode_len();
        let rest = s.substring_char(p, n);
        assert(rest@ == s@.skip(approve_prefix().len() as int));
        match find_colon(rest) {
            None => None,
            Some(k) => {
                proof {
                    assert forall|k2: int| first_colon_at(rest@, k2) implies k2 == k by {
                        lemma_first_colon_unique(rest@, k as int, k2);
                    }
                }
                let m = rest.unicode_len();
                let user = parse_decimal(rest.substring_char(0, k));
                let channel = parse_decimal(rest.substring_char(k + 1, m));
                proof {
                    assert(rest@.subrange(0, k as int) =~= rest@.take(k as int));
                    assert(rest@.subrange(k + 1, m as int) =~= rest@.skip(k + 1));
                }
                match (user, channel) {
                    (Some(u), Some(c)) => Some(ButtonCustomId::ApproveConfession(u, c)),
                    _ => None,
                }
            },
        }
    }
}

/// Reading the custom id of a button gives that button back.
pub proof fn lemma_id_roundtrip(b: ButtonCustomId)
    ensures
        parse_id(id_text(b)) == Some(b),
{
    reveal_strlit("approve_confession:");
    reveal_strlit("deny_confession");
    match b {
        ButtonCustomId::ApproveConfession(user, channel) => {
            let s = id_text(b);
            let du = decimal(user as nat);
            let dc = decimal(channel as nat);
            let p = approve_prefix();
            assert(s[0] == 'a');
            assert(deny_text()[0] == 'd');
            assert(s != deny_text());
            assert(s.take(p.len() as int) =~= p);
            let rest = s.skip(p.len() as int);
            assert(rest =~= du + seq![':'] + dc);
            lemma_decimal_canonical(user as nat);
            lemma_decimal_canonical(channel as nat);
            let k = du.len() as int;
            assert(first_colon_at(rest, k)) by {
                assert forall|j: int| 0 <= j < k implies rest[j] != ':' by {
                    assert(rest[j] == du[j]);
                    assert(is_digit(du[j]));
                }
            }
            assert forall|k2: int| first_colon_at(rest, k2) implies k2 == k by {
                lemma_first_colon_unique(rest, k, k2);
            }
            assert(rest.take(k) =~= du);
            assert(rest.skip(k + 1) =~= dc);
        },
        ButtonCustomId::DenyConfession() => {},
    }
}

/// A text that names a button is exactly the custom id of that button.
pub proof fn lemma_id_unique(s: Seq<char>, b: ButtonCustomId)
    requires
        parse_id(s) == Some(b),
    ensures
        s == id_text(b),
{
    if s != deny_text() {
        let p = approve_prefix();
        let rest = s.skip(p.len() as int);
        let k = choose|k: int| first_colon_at(rest, k);
        let head = rest.take(k);
        let tail = rest.skip(k + 1);
        lemma_canonical_is_decimal(head);
        lemma_canonical_is_decimal(tail);
        assert(rest =~= head + seq![':'] + tail);
        assert(s =~= s.take(p.len() as int) + rest);
        assert(s =~= id_text(b));
    }
}

} // verus!
