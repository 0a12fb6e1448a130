use vstd::prelude::*;

verus! {

/// What a log of named outcomes amounts to, keyed by name: where a name
/// occurs more than once, the entry that was recorded last stands.
pub open spec fn merged<O>(log: Seq<(Seq<char>, O)>) -> Map<Seq<char>, O>
    decreases log.len(),
{
    if log.len() == 0 {
        Map::empty()
    } else {
        merged(log.drop_last()).insert(log.last().0, log.last().1)
    }
}

/// A name has a result exactly when the log has an entry for it.
pub proof fn lemma_merged_names<O>(log: Seq<(Seq<char>, O)>, name: Seq<char>)
    ensures
        merged(log).contains_key(name) <==> exists|i: int|
            0 <= i < log.len() && (#[trigger] log[i]).0 == name,
    decreases log.len(),
{
    if log.len() > 0 {
        let front = log.drop_last();
        lemma_merged_names(front, name);
        if merged(log).contains_key(name) {
            if log.last().0 == name {
                assert(log[log.len() - 1].0 == name);
            } else {
                let i = choose|i: int| 0 <= i < front.len() && (#[trigger] front[i]).0 == name;
                assert(log[i].0 == name);
            }
        }
        if exists|i: int| 0 <= i < log.len() && (#[trigger] log[i]).0 == name {
            let i = choose|i: int| 0 <= i < log.len() && (#[trigger] log[i]).0 == name;
            if i < log.len() - 1 {
                assert(front[i].0 == name);
            }
        }
    }
}

/// With duplicate names, the result for a name is the outcome that was
/// recorded last under it.
pub proof fn lemma_merged_latest<O>(log: Seq<(Seq<char>, O)>, name: Seq<char>, at: int)
    requires
        0 <= at < log.len(),
        log[at].0 == name,
        forall|j: int| at < j < log.len() ==> (#[trigger] log[j]).0 != name,
    ensures
        merged(log).contains_key(name),
        merged(log)[name] == log[at].1,
    decreases log.len(),
{
    if at < log.len() - 1 {
        let front = log.drop_last();
        assert(log[log.len() - 1].0 != name);
        assert forall|j: int| at < j < front.len() implies (#[trigger] front[j]).0 != name by {
            assert(log[j].0 != name);
        }
        lemma_merged_latest(front, name, at);
    }
}

/// Merging two logs one after the other gives what the first amounts to,
/// overwritten by what the second amounts to.
pub proof fn lemma_merged_concat<O>(first: Seq<(Seq<char>, O)>, second: Seq<(Seq<char>, O)>)
    ensures
        merged(first + second) == merged(first).union_prefer_right(merged(second)),
    decreases second.len(),
{
    if second.len() == 0 {
        assert(first + second =~= first);
        assert(merged(first).union_prefer_right(merged(second)) =~= merged(first));
    } else {
        let whole = first + second;
        assert(whole.drop_last() =~= first + second.drop_last());
        assert(whole.last() == second.last());
        lemma_merged_concat(first, second.drop_last());
        assert(merged(whole) =~= merged(first).union_prefer_right(merged(second)));
    }
}

/// The outcomes of the steps that ran, in the order in which they were
/// recorded. Looked up by name, the outcome recorded last stands.
#[derive(Debug)]
pub struct Outputs<O> {
    entries: Vec<(String, O)>,
}

impl<O> View for Outputs<O> {
    type V = Map<Seq<char>, O>;

    /// The outcome that stands for each name.
    open spec fn view(&self) -> Map<Seq<char>, O> {
        merged(self.log())
    }
}

impl<O> Outputs<O> {
    /// Every recorded name with its outcome, oldest first.
    pub closed spec fn log(&self) -> Seq<(Seq<char>, O)> {
        self.entries@.map_values(|e: (String, O)| (e.0@, e.1))
    }

    /// Results with nothing recorded.
    pub fn new() -> (outputs: Outputs<O>)
        ensures
            outputs.log() == Seq::<(Seq<char>, O)>::empty(),
            outputs@ == Map::<Seq<char>, O>::empty(),
    {
        let outputs = Outputs { entries: Vec::new() };
        assert(outputs.log() =~= Seq::<(Seq<char>, O)>::empty());
        outputs
    }

    /// Records `value` as the outcome of the step `name`. It replaces what
    /// was recorded under that name before.
    pub fn record(&mut self, name: String, value: O)
        ensures
            final(self).log() == old(self).log().push((name@, value)),
            final(self)@ == old(self)@.insert(name@, value),
    {
        self.entries.push((name, value));
        proof {
            assert(self.log() =~= old(self).log().push((name@, value)));
            assert(self.log().drop_last() =~= old(self).log());
        }
    }

    /// How many outcomes were recorded, replaced ones included.
    pub fn recorded(&self) -> (n: usize)
        ensures
            n == self.log().len(),
    {
        self.entries.len()
    }

    /// The outcome that stands for `name`, if one was recorded.
    pub fn get(&self, name: &str) -> (found: Option<&O>)
        ensures
            match found {
                Some(value) => self@.contains_key(name@) && *value == self@[name@],
                None => !self@.contains_key(name@),
            },
    {
        let key = name.to_owned();
        let mut i: usize = self.entries.len();
        while i > 0
            invariant
                i <= self.entries@.len(),
                key@ == name@,
                forall|j: int| i <= j < self.log().len() ==> (#[trigger] self.log()[j]).0 != name@,
            decreases i,
        {
            i -= 1;
            if self.entries[i].0 == key {
                proof {
                    lemma_merged_latest(self.log(), name@, i as int);
                }
                return Some(&self.entries[i].1);
            }
        }
        proof {
            lemma_merged_names(self.log(), name@);
        }
        None
    }

    /// Whether an outcome was recorded for `name`.
    pub fn contains(&self, name: &str) -> (found: bool)
        ensures
            found == self@.contains_key(name@),
    {
        self.get(name).is_some()
    }

    /// Records everything that `later` holds after what is recorded here:
    /// on a name that both hold, the outcome of `later` stands.
    pub fn merge(&mut self, later: Outputs<O>)
        ensures
            final(self).log() == old(self).log() + later.log(),
            final(self)@ == old(self)@.union_prefer_right(later@),
    {
        let mut later = later;
        let ghost added = later.log();
        self.entries.append(&mut later.entries);
        proof {
            assert(self.log() =~= old(self).log() + added);
            lemma_merged_concat(old(self).log(), added);
        }
    }

    /// Every recorded name with its outcome, oldest first.
    pub fn into_entries(self) -> (entries: Vec<(String, O)>)
        ensures
            entries@.map_values(|e: (String, O)| (e.0@, e.1)) == self.log(),
    {
        self.entries
    }
}

} // verus!
