//! The session's cookie jar for the judge's origin.
use vstd::prelude::*;
use crate::text::{pairs_view, same_text};

verus! {

/// The cookies that a list of name/value pairs sets, a later pair of a name
/// overriding an earlier one.
pub open spec fn pairs_map(s: Seq<(Seq<char>, Seq<char>)>) -> Map<Seq<char>, Seq<char>>
    decreases s.len(),
{
    if s.len() == 0 {
        Map::empty()
    } else {
        pairs_map(s.drop_last()).insert(s.last().0, s.last().1)
    }
}

/// Cookies of one origin, by name; setting a name again replaces its value
/// in place.
#[derive(Clone, Debug)]
pub struct CookieJar {
    entries: Vec<(String, String)>,
}

impl View for CookieJar {
    type V = Map<Seq<char>, Seq<char>>;

    closed spec fn view(&self) -> Map<Seq<char>, Seq<char>> {
        pairs_map(pairs_view(self.entries@))
    }
}

/// Replacing the value of the last entry of a name is inserting it.
proof fn lemma_update_is_insert(s: Seq<(Seq<char>, Seq<char>)>, i: int, v: Seq<char>)
    requires
        0 <= i < s.len(),
        forall|j: int| i < j < s.len() ==> (#[trigger] s[j]).0 != s[i].0,
    ensures
        pairs_map(s.update(i, (s[i].0, v))) == pairs_map(s).insert(s[i].0, v),
    decreases s.len(),
{
    let t = s.update(i, (s[i].0, v));
    if i == s.len() - 1 {
        assert(t.drop_last() =~= s.drop_last());
        assert(pairs_map(t) =~= pairs_map(s).insert(s[i].0, v));
    } else {
        let f = s.drop_last();
        assert(t.drop_last() =~= f.update(i, (f[i].0, v)));
        assert forall|j: int| i < j < f.len() implies (#[trigger] f[j]).0 != f[i].0 by {
            assert(f[j] == s[j]);
        }
        lemma_update_is_insert(f, i, v);
        assert(s[s.len() - 1].0 != s[i].0);
        assert(pairs_map(t) =~= pairs_map(s).insert(s[i].0, v));
    }
}

impl CookieJar {
    /// An empty jar.
    pub fn new() -> (r: CookieJar)
        ensures
            r@ == Map::<Seq<char>, Seq<char>>::empty(),
    {
        let r = CookieJar { entries: Vec::new() };
        assert(pairs_view(r.entries@) =~= Seq::empty());
        r
    }

    /// Sets cookie `name` to `value`, replacing an earlier value.
    pub fn set(&mut self, name: &str, value: &str)
        ensures
            final(self)@ == old(self)@.insert(name@, value@),
    {
        let ghost before = pairs_view(self.entries@);
        let mut k: usize = self.entries.len();
        while k > 0
            invariant
                k <= self.entries.len(),
                self.entries@ == old(self).entries@,
                before == pairs_view(self.entries@),
                forall|j: int| k <= j < self.entries@.len() ==> (#[trigger] self.entries@[j]).0@ != name@,
            decreases k,
        {
            let i = k - 1;
            if same_text(self.entries[i].0.as_str(), name) {
                let ghost s = pairs_view(self.entries@);
                proof {
                    assert(s[i as int].0 == name@);
                    assert forall|j: int| i < j < s.len() implies (#[trigger] s[j]).0 != s[i as int].0 by {
                        assert(s[j].0 == self.entries@[j].0@);
                    }
                    lemma_update_is_insert(s, i as int, value@);
                }
                self.entries.set(i, (name.to_owned(), value.to_owned()));
                assert(pairs_view(self.entries@) =~= s.update(i as int, (s[i as int].0, value@)));
                return;
            }
            k = i;
        }
        self.entries.push((name.to_owned(), value.to_owned()));
        assert(pairs_view(self.entries@).drop_last() =~= before);
    }

    /// The cookies as name/value pairs, in the order their names were first set.
    pub fn pairs(&self) -> (r: Vec<(String, String)>)
        ensures
            pairs_map(pairs_view(r@)) == self@,
    {
        let mut out: Vec<(String, String)> = Vec::new();
        let mut i: usize = 0;
        while i < self.entries.len()
            invariant
                i <= self.entries.len(),
                pairs_view(out@) == pairs_view(self.entries@).take(i as int),
            decreases self.entries.len() - i,
        {
            let name = self.entries[i].0.clone();
            let value = self.entries[i].1.clone();
            let ghost prev = out@;
            out.push((name, value));
            assert(out@ == prev.push(self.entries@[i as int]));
            assert(pairs_view(out@) =~= pairs_view(prev).push((self.entries@[i as int].0@, self.entries@[i as int].1@)));
            assert(pairs_view(out@) =~= pairs_view(self.entries@).take(i + 1));
            i = i + 1;
        }
        assert(pairs_view(self.entries@).take(i as int) =~= pairs_view(self.entries@));
        out
    }
}

} // verus!
