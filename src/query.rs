//! Parsing of the category filter of a data-item listing.

use vstd::prelude::*;
use crate::models::DataQuery;

verus! {

/// Characters with the Unicode White_Space property.
pub open spec fn white_space(c: char) -> bool {
    let u = c as u32;
    (0x09 <= u && u <= 0x0D) || u == 0x20 || u == 0x85 || u == 0xA0 || u == 0x1680
        || (0x2000 <= u && u <= 0x200A) || u == 0x2028 || u == 0x2029 || u == 0x202F
        || u == 0x205F || u == 0x3000
}

/// Whether `c` has the Unicode White_Space property.
pub fn is_white_space(c: char) -> (r: bool)
    ensures
        r == white_space(c),
{
    let u = c as u32;
    (0x09 <= u && u <= 0x0D) || u == 0x20 || u == 0x85 || u == 0xA0 || u == 0x1680
        || (0x2000 <= u && u <= 0x200A) || u == 0x2028 || u == 0x2029 || u == 0x202F
        || u == 0x205F || u == 0x3000
}

/// `s` without leading and trailing white space.
pub open spec fn trim_ws(s: Seq<char>) -> Seq<char>
    decreases s.len(),
{
    if s.len() > 0 && white_space(s[0]) {
        trim_ws(s.drop_first())
    } else if s.len() > 0 && white_space(s.last()) {
        trim_ws(s.drop_last())
    } else {
        s
    }
}

/// The pieces of `s` between commas; an empty `s` is one empty piece.
pub open spec fn split_commas(s: Seq<char>) -> Seq<Seq<char>>
    decreases s.len(),
{
    if s.len() == 0 {
        seq![Seq::empty()]
    } else {
        let prev = split_commas(s.drop_last());
        if s.last() == ',' {
            prev.push(Seq::empty())
        } else {
            prev.update(prev.len() - 1, prev.last().push(s.last()))
        }
    }
}

proof fn lemma_split_nonempty(s: Seq<char>)
    ensures
        split_commas(s).len() >= 1,
    decreases s.len(),
{
    if s.len() > 0 {
        lemma_split_nonempty(s.drop_last());
    }
}

proof fn lemma_trim_inner(s: Seq<char>, a: int, b: int)
    requires
        0 <= a <= b <= s.len(),
        a < b ==> !white_space(s[a]) && !white_space(s[b - 1]),
        forall|j: int| b <= j < s.len() ==> white_space(#[trigger] s[j]),
    ensures
        trim_ws(s.subrange(a, s.len() as int)) == s.subrange(a, b),
    decreases s.len() - b,
{
    let t = s.subrange(a, s.len() as int);
    if a == b {
        assert forall|j: int| 0 <= j < t.len() implies white_space(#[trigger] t[j]) by {
            assert(t[j] == s[a + j]);
        }
        lemma_trim_all_ws(t);
        assert(s.subrange(a, b) =~= Seq::<char>::empty());
    } else if b < s.len() {
        let s1 = s.subrange(0, s.len() - 1);
        assert(t[0] == s[a]);
        assert(t.last() == s[s.len() - 1]);
        assert(t.drop_last() =~= s1.subrange(a, s1.len() as int));
        assert forall|j: int| b <= j < s1.len() implies white_space(#[trigger] s1[j]) by {
            assert(s1[j] == s[j]);
        }
        lemma_trim_inner(s1, a, b);
        assert(s1.subrange(a, b) =~= s.subrange(a, b));
    } else {
        assert(t =~= s.subrange(a, b));
        assert(t[0] == s[a]);
        assert(t.last() == s[b - 1]);
    }
}

proof fn lemma_trim_all_ws(t: Seq<char>)
    requires
        forall|j: int| 0 <= j < t.len() ==> white_space(#[trigger] t[j]),
    ensures
        trim_ws(t) == Seq::<char>::empty(),
    decreases t.len(),
{
    if t.len() > 0 {
        assert forall|j: int| 0 <= j < t.drop_first().len() implies white_space(#[trigger] t.drop_first()[j]) by {
            assert(t.drop_first()[j] == t[j + 1]);
        }
        lemma_trim_all_ws(t.drop_first());
    } else {
        assert(t =~= Seq::<char>::empty());
    }
}

proof fn lemma_trim_skip(s: Seq<char>, a: int)
    requires
        0 <= a < s.len(),
        white_space(s[a]),
    ensures
        trim_ws(s.subrange(a, s.len() as int)) == trim_ws(s.subrange(a + 1, s.len() as int)),
{
    let t = s.subrange(a, s.len() as int);
    assert(t[0] == s[a]);
    assert(t.drop_first() =~= s.subrange(a + 1, s.len() as int));
}

/// `s` without leading and trailing white space.
pub fn trim(s: &str) -> (r: String)
    ensures
        r@ == trim_ws(s@),
{
    let n = s.unicode_len();
    let mut a: usize = 0;
    assert(s@.subrange(0, n as int) =~= s@);
    while a < n && is_white_space(s.get_char(a))
        invariant
            n == s@.len(),
            a <= n,
            trim_ws(s@) == trim_ws(s@.subrange(a as int, n as int)),
        decreases n - a,
    {
        proof {
            lemma_trim_skip(s@, a as int);
        }
        a = a + 1;
    }
    let mut b: usize = n;
    while b > a && is_white_space(s.get_char(b - 1))
        invariant
            n == s@.len(),
            a <= b <= n,
            forall|j: int| b <= j < n ==> white_space(#[trigger] s@[j]),
        decreases b,
    {
        b = b - 1;
    }
    proof {
        if a < b {
            assert(!white_space(s@[a as int]));
        }
        lemma_trim_inner(s@, a as int, b as int);
    }
    String::from_str(s.substring_char(a, b))
}

impl DataQuery {
    /// The requested categories: the comma-separated pieces of the filter,
    /// each trimmed; `None` when no filter is given.
    pub fn category_list(&self) -> (r: Option<Vec<String>>)
        ensures
            match (r, self.categories) {
                (Some(v), Some(c)) => v@.len() == split_commas(c@).len()
                    && forall|i: int| 0 <= i < v@.len() ==> (#[trigger] v@[i])@ == trim_ws(split_commas(c@)[i]),
                (None, None) => true,
                _ => false,
            },
    {
        match &self.categories {
            None => None,
            Some(c) => {
                let s = c.as_str();
                let n = s.unicode_len();
                let mut done: Vec<String> = Vec::new();
                let mut current = String::new();
                let mut i: usize = 0;
                while i < n
                    invariant
                        n == s@.len(),
                        i <= n,
                        split_commas(s@.subrange(0, i as int)).len() == done@.len() + 1,
                        forall|j: int| 0 <= j < done@.len() ==> (#[trigger] done@[j])@
                            == trim_ws(split_commas(s@.subrange(0, i as int))[j]),
                        current@ == split_commas(s@.subrange(0, i as int)).last(),
                    decreases n - i,
                {
                    let ghost pre = s@.subrange(0, i as int);
                    let ghost nxt = s@.subrange(0, i + 1 as int);
                    assert(nxt.drop_last() =~= pre);
                    assert(nxt.last() == s@[i as int]);
                    proof {
                        lemma_split_nonempty(pre);
                    }
                    let ch = s.get_char(i);
                    if ch == ',' {
                        done.push(trim(current.as_str()));
                        current = String::new();
                    } else {
                        let piece = s.substring_char(i, i + 1);
                        assert(piece@ =~= seq![ch]);
                        current.append(piece);
                    }
                    i = i + 1;
                }
                assert(s@.subrange(0, n as int) =~= s@);
                done.push(trim(current.as_str()));
                Some(done)
            },
        }
    }
}

} // verus!
