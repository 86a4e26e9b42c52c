//! The identifier protocol: the compact strings embedded in interactive
//! buttons, the only state the external chat client round-trips back to the
//! handler. Grammar: `"circle/" <action> "/" <circle_id>`, where `<action>`
//! and `<circle_id>` contain no `/` and `<circle_id>` is non-empty.

use vstd::prelude::*;

verus! {

use vstd::string::StrSliceExecFns;
use vstd::string::StringExecFns;

use crate::errors::DirectoryError;
use crate::strutil::str_eq;

/// The action segment of a button identifier.
#[derive(Debug, Clone, PartialEq, Eq)]
pub enum Action {
    /// The membership toggle, the one action that is handled.
    Join,
    /// Any other action: it decodes successfully but routes to the default
    /// "unrecognized action" response.
    Unrecognized(String),
}

impl Action {
    /// The text that stands for the action inside an encoded identifier.
    pub open spec fn text(self) -> Seq<char> {
        match self {
            Action::Join => "join"@,
            Action::Unrecognized(s) => s@,
        }
    }

    /// A well-formed action: its text holds no separator, and an
    /// unrecognized action is not spelled like a recognized one.
    pub open spec fn wf(self) -> bool {
        match self {
            Action::Join => true,
            Action::Unrecognized(s) => no_slash(s@) && s@ != "join"@,
        }
    }

    /// The action's text, for rendering.
    pub fn text_str(&self) -> (r: &str)
        ensures
            r@ == self.text(),
    {
        match self {
            Action::Join => "join",
            Action::Unrecognized(s) => s.as_str(),
        }
    }
}

/// The text holds no `/` separator.
pub open spec fn no_slash(s: Seq<char>) -> bool {
    forall|i: int| 0 <= i < s.len() ==> s[i] != '/'
}

/// The identifier that an action and a circle identifier encode to.
pub open spec fn encoded(action: Seq<char>, id: Seq<char>) -> Seq<char> {
    "circle/"@ + action + "/"@ + id
}

/// The text decomposes into the three-segment grammar with the given action
/// and circle identifier.
pub open spec fn grammar_parts(raw: Seq<char>, action: Seq<char>, id: Seq<char>) -> bool {
    &&& raw == encoded(action, id)
    &&& no_slash(action)
    &&& no_slash(id)
    &&& id.len() > 0
}

/// The text decomposes into the three-segment grammar.
pub open spec fn matches_grammar(raw: Seq<char>) -> bool {
    exists|action: Seq<char>, id: Seq<char>| grammar_parts(raw, action, id)
}

/// What each character of a grammatical identifier is, by region.
proof fn lemma_parts_chars(raw: Seq<char>, a: Seq<char>, id: Seq<char>)
    requires
        grammar_parts(raw, a, id),
    ensures
        raw.len() == 8 + a.len() + id.len(),
        forall|j: int| 0 <= j < 7 ==> raw[j] == "circle/"@[j],
        forall|j: int| 7 <= j < 7 + a.len() ==> raw[j] == a[j - 7],
        raw[7 + a.len() as int] == '/',
        forall|j: int| 8 + a.len() <= j < raw.len() ==> raw[j] == id[j - 8 - a.len()],
        forall|j: int| 7 <= j < raw.len() && j != 7 + a.len() ==> raw[j] != '/',
{
    reveal_strlit("circle/");
    reveal_strlit("/");
    assert(raw =~= "circle/"@ + a + "/"@ + id);
    assert forall|j: int| 7 <= j < raw.len() && j != 7 + a.len() implies raw[j] != '/' by {
        if j < 7 + a.len() {
            assert(raw[j] == a[j - 7]);
        } else {
            assert(raw[j] == id[j - 8 - a.len()]);
        }
    }
}

/// Any two grammar decompositions of the same identifier agree.
pub proof fn lemma_parts_unique(
    raw: Seq<char>,
    a1: Seq<char>,
    id1: Seq<char>,
    a2: Seq<char>,
    id2: Seq<char>,
)
    requires
        grammar_parts(raw, a1, id1),
        grammar_parts(raw, a2, id2),
    ensures
        a1 == a2,
        id1 == id2,
{
    lemma_parts_chars(raw, a1, id1);
    lemma_parts_chars(raw, a2, id2);
    if a1.len() < a2.len() {
        assert(raw[7 + a1.len() as int] == '/');
        assert(raw[7 + a1.len() as int] != '/');
    } else if a2.len() < a1.len() {
        assert(raw[7 + a2.len() as int] == '/');
        assert(raw[7 + a2.len() as int] != '/');
    }
    assert(a1.len() == a2.len());
    assert(id1.len() == id2.len());
    assert forall|j: int| 0 <= j < a1.len() implies a1[j] == a2[j] by {
        assert(raw[7 + j] == a1[j]);
        assert(raw[7 + j] == a2[j]);
    }
    assert(a1 =~= a2);
    assert forall|j: int| 0 <= j < id1.len() implies id1[j] == id2[j] by {
        assert(raw[8 + a1.len() + j] == id1[j]);
        assert(raw[8 + a2.len() + j] == id2[j]);
    }
    assert(id1 =~= id2);
}

/// Pure formatting of an identifier: always succeeds for a well-formed
/// action and a non-empty, slash-free circle identifier.
pub fn encode(action: &Action, circle_id: &str) -> (r: String)
    requires
        action.wf(),
        no_slash(circle_id@),
        circle_id@.len() > 0,
    ensures
        r@ == encoded(action.text(), circle_id@),
        grammar_parts(r@, action.text(), circle_id@),
{
    let mut s = String::from_str("circle/");
    s.append(action.text_str());
    s.append("/");
    s.append(circle_id);
    proof {
        assert(s@ =~= encoded(action.text(), circle_id@));
        if action is Join {
            assert(no_slash("join"@)) by {
                reveal_strlit("join");
            }
        }
    }
    s
}

/// Matches the three-segment pattern and splits it into the action and the
/// circle identifier; fails with `InvalidFormat` exactly when the text does
/// not match the grammar. Decoding does not check that the circle identifier
/// refers to an existing circle.
pub fn decode(raw: &str) -> (r: Result<(Action, String), DirectoryError>)
    ensures
        match r {
            Ok((action, id)) => grammar_parts(raw@, action.text(), id@) && action.wf(),
            Err(e) => e == DirectoryError::InvalidFormat && !matches_grammar(raw@),
        },
{
    let n = raw.unicode_len();
    if n < 9 {
        proof {
            assert forall|a: Seq<char>, id: Seq<char>| !grammar_parts(raw@, a, id) by {
                if grammar_parts(raw@, a, id) {
                    lemma_parts_chars(raw@, a, id);
                }
            }
        }
        return Err(DirectoryError::InvalidFormat);
    }
    let pat = "circle/";
    proof {
        reveal_strlit("circle/");
    }
    let mut k: usize = 0;
    while k < 7
        invariant
            k <= 7,
            n == raw@.len(),
            n >= 9,
            pat@ == "circle/"@,
            pat@.len() == 7,
            forall|j: int| 0 <= j < k ==> raw@[j] == "circle/"@[j],
        decreases 7 - k,
    {
        if raw.get_char(k) != pat.get_char(k) {
            proof {
                assert forall|a: Seq<char>, id: Seq<char>| !grammar_parts(raw@, a, id) by {
                    if grammar_parts(raw@, a, id) {
                        lemma_parts_chars(raw@, a, id);
                    }
                }
            }
            return Err(DirectoryError::InvalidFormat);
        }
        k += 1;
    }
    let mut p: usize = 7;
    while p < n && raw.get_char(p) != '/'
        invariant
            7 <= p <= n,
            n == raw@.len(),
            forall|j: int| 7 <= j < p ==> raw@[j] != '/',
        decreases n - p,
    {
        p += 1;
    }
    if p == n {
        proof {
            assert forall|a: Seq<char>, id: Seq<char>| !grammar_parts(raw@, a, id) by {
                if grammar_parts(raw@, a, id) {
                    lemma_parts_chars(raw@, a, id);
                    assert(raw@[7 + a.len() as int] == '/');
                }
            }
        }
        return Err(DirectoryError::InvalidFormat);
    }
    if p + 1 == n {
        proof {
            assert forall|a: Seq<char>, id: Seq<char>| !grammar_parts(raw@, a, id) by {
                if grammar_parts(raw@, a, id) {
                    lemma_parts_chars(raw@, a, id);
                    assert(7 + a.len() < p);
                    assert(raw@[7 + a.len() as int] == '/');
                }
            }
        }
        return Err(DirectoryError::InvalidFormat);
    }
    let mut q: usize = p + 1;
    while q < n && raw.get_char(q) != '/'
        invariant
            p + 1 <= q <= n,
            p < n,
            n == raw@.len(),
            raw@[p as int] == '/',
            forall|j: int| p < j < q ==> raw@[j] != '/',
        decreases n - q,
    {
        q += 1;
    }
    if q < n {
        proof {
            assert(raw@[q as int] == '/');
            assert forall|a: Seq<char>, id: Seq<char>| !grammar_parts(raw@, a, id) by {
                if grammar_parts(raw@, a, id) {
                    lemma_parts_chars(raw@, a, id);
                    let sep = 7 + a.len() as int;
                    assert(raw@[sep] == '/');
                    if sep != p {
                        assert(raw@[p as int] != '/');
                    }
                    if sep != q {
                        assert(raw@[q as int] != '/');
                    }
                }
            }
        }
        return Err(DirectoryError::InvalidFormat);
    }
    let action_seg = raw.substring_char(7, p);
    let id_s = raw.substring_char(p + 1, n).to_owned();
    proof {
        reveal_strlit("circle/");
        reveal_strlit("/");
        assert("circle/"@.len() == 7);
        assert(raw@.subrange(0, 7) =~= "circle/"@);
        assert(raw@ =~= "circle/"@ + raw@.subrange(7, p as int) + "/"@
            + raw@.subrange(p as int + 1, n as int));
        assert(grammar_parts(raw@, action_seg@, id_s@));
    }
    if str_eq(action_seg, "join") {
        Ok((Action::Join, id_s))
    } else {
        Ok((Action::Unrecognized(action_seg.to_owned()), id_s))
    }
}

/// Round trip: an identifier produced by `encode` from a well-formed action
/// and a non-empty, slash-free circle identifier decomposes only into that
/// same action text and identifier, and any well-formed action read back
/// from it is the action that was encoded.
pub proof fn lemma_round_trip(a: Action, id: Seq<char>, b: Action, bid: Seq<char>)
    requires
        a.wf(),
        no_slash(id),
        id.len() > 0,
        grammar_parts(encoded(a.text(), id), b.text(), bid),
        b.wf(),
    ensures
        b.text() == a.text(),
        bid == id,
        b is Join <==> a is Join,
{
    assert(no_slash(a.text())) by {
        if a is Join {
            reveal_strlit("join");
        }
    }
    assert(grammar_parts(encoded(a.text(), id), a.text(), id));
    lemma_parts_unique(encoded(a.text(), id), a.text(), id, b.text(), bid);
    if a is Join && !(b is Join) {
        let s = b->Unrecognized_0;
        assert(s@ == "join"@);
    }
    if b is Join && !(a is Join) {
        let s = a->Unrecognized_0;
        assert(s@ == "join"@);
    }
}

/// Whether the text begins with the prefix.
pub open spec fn starts_with(s: Seq<char>, p: Seq<char>) -> bool {
    p.len() <= s.len() && s.subrange(0, p.len() as int) == p
}

/// Whether the string slice begins with the prefix.
fn has_prefix(s: &str, p: &str) -> (r: bool)
    ensures
        r == starts_with(s@, p@),
{
    let plen = p.unicode_len();
    let slen = s.unicode_len();
    if plen > slen {
        return false;
    }
    let mut i: usize = 0;
    while i < plen
        invariant
            i <= plen,
            plen == p@.len(),
            slen == s@.len(),
            plen <= slen,
            forall|j: int| 0 <= j < i ==> s@[j] == p@[j],
        decreases plen - i,
    {
        if s.get_char(i) != p.get_char(i) {
            proof {
                assert(s@.subrange(0, plen as int)[i as int] == s@[i as int]);
            }
            return false;
        }
        i += 1;
    }
    proof {
        assert(s@.subrange(0, plen as int) =~= p@);
    }
    true
}

/// Whether the text is a web address: it begins with `http://` or
/// `https://`.
pub fn is_url(s: &str) -> (r: bool)
    ensures
        r == (starts_with(s@, "http://"@) || starts_with(s@, "https://"@)),
{
    if has_prefix(s, "http://") {
        return true;
    }
    has_prefix(s, "https://")
}

} // verus!
