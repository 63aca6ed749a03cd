//! The typed execution request: what one run of a guest component is given.

use vstd::prelude::*;

verus! {

/// No two entries carry the same variable name.
pub open spec fn unique_keys(s: Seq<(String, String)>) -> bool {
    forall|i: int, j: int| 0 <= i < j < s.len() ==> s[i].0@ != s[j].0@
}

/// The mapping a list of (name, value) entries stands for; a later entry for
/// the same name wins.
pub open spec fn pairs_map(s: Seq<(String, String)>) -> Map<Seq<char>, Seq<char>>
    decreases s.len(),
{
    if s.len() == 0 {
        Map::<Seq<char>, Seq<char>>::empty()
    } else {
        pairs_map(s.drop_last()).insert(s.last().0@, s.last().1@)
    }
}

/// Replacing the entry that already carries a name changes the mapping the
/// same way as writing that name afresh.
pub proof fn lemma_pairs_map_update(s: Seq<(String, String)>, j: int, p: (String, String))
    requires
        unique_keys(s),
        0 <= j < s.len(),
        s[j].0@ == p.0@,
    ensures
        pairs_map(s.update(j, p)) == pairs_map(s).insert(p.0@, p.1@),
    decreases s.len(),
{
    let t = s.update(j, p);
    if j == s.len() - 1 {
        assert(t.drop_last() =~= s.drop_last());
        assert(t.last() == p);
        assert(pairs_map(s).insert(p.0@, p.1@) =~= pairs_map(s.drop_last()).insert(p.0@, p.1@));
    } else {
        assert(unique_keys(s.drop_last())) by {
            assert(forall|a: int, b: int|
                0 <= a < b < s.drop_last().len() ==> s.drop_last()[a] == s[a] && s.drop_last()[b]
                    == s[b]);
        }
        assert(t.drop_last() =~= s.drop_last().update(j, p));
        assert(t.last() == s.last());
        lemma_pairs_map_update(s.drop_last(), j, p);
        assert(s.last().0@ != p.0@);
        assert(pairs_map(s.drop_last()).insert(p.0@, p.1@).insert(s.last().0@, s.last().1@)
            =~= pairs_map(s.drop_last()).insert(s.last().0@, s.last().1@).insert(p.0@, p.1@));
    }
}

/// The input to a single run: constructed once by the decoder, immutable
/// thereafter, owned by the call that made it.
#[derive(Debug)]
pub struct ExecutionRequest {
    /// Path of the compiled guest component to load.
    pub program: String,
    /// Command-line arguments, in order; the order is meaningful.
    pub args: Vec<String>,
    /// Environment entries; names are unique.
    pub env: Vec<(String, String)>,
    /// The guest's entire standard input, whole-buffer.
    pub stdin: String,
}

impl ExecutionRequest {
    /// The environment as a mapping from variable name to value.
    pub open spec fn env_map(&self) -> Map<Seq<char>, Seq<char>> {
        pairs_map(self.env@)
    }

    pub open spec fn wf(&self) -> bool {
        unique_keys(self.env@)
    }
}

} // verus!
