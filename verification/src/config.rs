//! The settings of the command-line tool and of its clusters.

use vstd::prelude::*;
use crate::text::same;

verus! {

/// The global settings.
#[derive(Clone, Debug, PartialEq, Eq)]
pub struct Config {
    pub repo: String,
}

impl Default for Config {
    fn default() -> (config: Self)
        ensures
            config.repo@ == Seq::<char>::empty(),
    {
        Config { repo: String::new() }
    }
}

/// How much is logged.
#[derive(Clone, Copy, Debug, PartialEq, Eq, Structural)]
pub enum LevelFilter {
    Off,
    Error,
    Warn,
    Info,
    Debug,
    Trace,
}

/// A cluster that commands can be sent to.
#[derive(Clone, Debug, PartialEq, Eq)]
pub struct Cluster {
    pub title: String,
    pub server: String,
    pub token: Option<String>,
}

impl Cluster {
    /// A copy of the cluster.
    pub fn duplicate(&self) -> (copy: Cluster)
        ensures
            copy == *self,
    {
        Cluster {
            title: self.title.clone(),
            server: self.server.clone(),
            token: match &self.token {
                Some(token) => Some(token.clone()),
                None => None,
            },
        }
    }
}

/// The clusters that the user has named, and the one in use.
#[derive(Clone, Debug, PartialEq, Eq)]
pub struct ContextConfiguration {
    current: Option<String>,
    clusters: Vec<(String, Cluster)>,
}

/// The position of the first cluster of the given name.
pub open spec fn position(clusters: Seq<(String, Cluster)>, name: Seq<char>) -> Option<int>
    decreases clusters.len(),
{
    if clusters.len() == 0 {
        None
    } else if clusters[0].0@ == name {
        Some(0)
    } else {
        match position(clusters.drop_first(), name) {
            Some(i) => Some(i + 1),
            None => None,
        }
    }
}

/// A position that was found lies within the list and holds the name; where
/// none was found, no cluster has the name.
pub proof fn lemma_position(clusters: Seq<(String, Cluster)>, name: Seq<char>)
    ensures
        match position(clusters, name) {
            Some(i) => 0 <= i < clusters.len() && clusters[i].0@ == name && forall|j: int|
                0 <= j < i ==> (#[trigger] clusters[j]).0@ != name,
            None => forall|j: int| 0 <= j < clusters.len() ==> (#[trigger] clusters[j]).0@ != name,
        },
    decreases clusters.len(),
{
    if clusters.len() > 0 && clusters[0].0@ != name {
        let rest = clusters.drop_first();
        lemma_position(rest, name);
        match position(rest, name) {
            Some(i) => {
                assert(rest[i] == clusters[i + 1]);
                assert forall|j: int| 0 <= j < i + 1 implies (#[trigger] clusters[j]).0@ != name by {
                    if j > 0 {
                        assert(rest[j - 1] == clusters[j]);
                    }
                }
            },
            None => {
                assert forall|j: int| 0 <= j < clusters.len() implies (#[trigger] clusters[j]).0@ != name by {
                    if j > 0 {
                        assert(rest[j - 1] == clusters[j]);
                    }
                }
            },
        }
    }
}

impl ContextConfiguration {
    /// The name of the cluster in use, if one is chosen.
    pub closed spec fn chosen(&self) -> Option<Seq<char>> {
        match self.current {
            Some(name) => Some(name@),
            None => None,
        }
    }

    /// The named clusters, in the order in which they were added.
    pub closed spec fn list(&self) -> Seq<(String, Cluster)> {
        self.clusters@
    }

    /// Whether no name is given to two clusters.
    pub open spec fn well_formed(&self) -> bool {
        forall|i: int, j: int|
            0 <= i < j < self.list().len() ==> (#[trigger] self.list()[i]).0@ != (#[trigger] self.list()[j]).0@
    }

    /// The cluster in use: the one that the chosen name stands for.
    pub open spec fn current_cluster(&self) -> Option<(String, Cluster)> {
        match self.chosen() {
            Some(name) => match position(self.list(), name) {
                Some(i) => Some(self.list()[i]),
                None => None,
            },
            None => None,
        }
    }

    /// No clusters, none in use.
    pub fn new() -> (contexts: Self)
        ensures
            contexts.chosen() is None,
            contexts.list().len() == 0,
            contexts.well_formed(),
    {
        ContextConfiguration { current: None, clusters: Vec::new() }
    }

    fn find(&self, name: &str) -> (found: Option<usize>)
        ensures
            found matches Some(k) ==> position(self.list(), name@) == Some(k as int) && k < self.list().len(),
            found is None ==> position(self.list(), name@) is None,
    {
        let mut i: usize = 0;
        proof {
            assert(self.clusters@.skip(0) =~= self.clusters@);
            lemma_position(self.clusters@, name@);
        }
        while i < self.clusters.len()
            invariant
                0 <= i <= self.clusters.len(),
                position(self.clusters@, name@) == match position(self.clusters@.skip(i as int), name@) {
                    Some(k) => Some(k + i),
                    None => None,
                },
            decreases self.clusters.len() - i,
        {
            proof {
                assert(self.clusters@.skip(i as int).drop_first() =~= self.clusters@.skip(i + 1));
            }
            if same(self.clusters[i].0.as_str(), name) {
                return Some(i);
            }
            i += 1;
        }
        None
    }

    /// The cluster in use, with its name.
    pub fn current(&self) -> (res: Option<(&String, &Cluster)>)
        ensures
            match self.current_cluster() {
                Some(entry) => res matches Some(found) && *found.0 == entry.0 && *found.1 == entry.1,
                None => res is None,
            },
    {
        match &self.current {
            Some(name) => match self.find(name.as_str()) {
                Some(i) => Some((&self.clusters[i].0, &self.clusters[i].1)),
                None => None,
            },
            None => None,
        }
    }

    /// The named clusters: each name with the title of its cluster, in the
    /// order in which they were added.
    pub fn titles(&self) -> (res: Vec<(String, String)>)
        ensures
            res@.len() == self.list().len(),
            forall|i: int|
                0 <= i < res@.len() ==> (#[trigger] res@[i]).0@ == self.list()[i].0@ && res@[i].1@
                    == self.list()[i].1.title@,
    {
        let mut res: Vec<(String, String)> = Vec::new();
        let mut i: usize = 0;
        while i < self.clusters.len()
            invariant
                0 <= i <= self.clusters.len(),
                res@.len() == i,
                forall|j: int|
                    0 <= j < i ==> (#[trigger] res@[j]).0@ == self.clusters@[j].0@ && res@[j].1@
                        == self.clusters@[j].1.title@,
            decreases self.clusters.len() - i,
        {
            res.push((self.clusters[i].0.clone(), self.clusters[i].1.title.clone()));
            i += 1;
        }
        res
    }

    /// The named clusters, in the order in which they were added.
    pub fn entries(&self) -> (res: Vec<(String, Cluster)>)
        ensures
            res@ == self.list(),
    {
        let mut res: Vec<(String, Cluster)> = Vec::new();
        let mut i: usize = 0;
        while i < self.clusters.len()
            invariant
                0 <= i <= self.clusters.len(),
                res@ == self.clusters@.take(i as int),
            decreases self.clusters.len() - i,
        {
            res.push((self.clusters[i].0.clone(), self.clusters[i].1.duplicate()));
            assert(res@ =~= self.clusters@.take(i + 1));
            i += 1;
        }
        assert(self.clusters@.take(self.clusters@.len() as int) =~= self.clusters@);
        res
    }

    /// The name of the cluster in use, if one is chosen.
    pub fn chosen_name(&self) -> (name: Option<String>)
        ensures
            match self.chosen() {
                Some(text) => name matches Some(found) && found@ == text,
                None => name is None,
            },
    {
        match &self.current {
            Some(name) => Some(name.clone()),
            None => None,
        }
    }

    /// Takes the cluster of the given name into use. Fails, and changes
    /// nothing, where no cluster has the name.
    pub fn select(&mut self, name: &str) -> (res: Result<(), String>)
        ensures
            final(self).list() == old(self).list(),
            old(self).well_formed() ==> final(self).well_formed(),
            match position(old(self).list(), name@) {
                Some(_) => res is Ok && final(self).chosen() == Some(name@),
                None => res is Err && final(self).chosen() == old(self).chosen(),
            },
    {
        match self.find(name) {
            Some(_) => {
                self.current = Some(String::from_str(name));
                Ok(())
            },
            None => Err(String::from_str("context not found")),
        }
    }

    /// Adds a cluster under a name that no cluster has yet. Fails, and
    /// changes nothing, where one has it.
    pub fn add(&mut self, name: &str, cluster: Cluster) -> (res: Result<(), String>)
        requires
            old(self).well_formed(),
        ensures
            final(self).chosen() == old(self).chosen(),
            final(self).well_formed(),
            match position(old(self).list(), name@) {
                Some(_) => res is Err && final(self).list() == old(self).list(),
                None => {
                    let list = final(self).list();
                    res is Ok && list.len() == old(self).list().len() + 1 && list.drop_last() == old(self).list()
                        && list.last().0@ == name@ && list.last().1 == cluster
                },
            },
    {
        proof {
            lemma_position(self.list(), name@);
        }
        match self.find(name) {
            Some(_) => Err(String::from_str("context already exists")),
            None => {
                self.clusters.push((String::from_str(name), cluster));
                assert(self.clusters@.drop_last() =~= old(self).clusters@);
                Ok(())
            },
        }
    }

    /// Removes the cluster of the given name; where it was in use, none is
    /// in use afterwards. Fails, and changes nothing, where no cluster has
    /// the name.
    pub fn delete(&mut self, name: &str) -> (res: Result<(), String>)
        requires
            old(self).well_formed(),
        ensures
            final(self).well_formed(),
            match position(old(self).list(), name@) {
                Some(i) => res is Ok && final(self).list() == old(self).list().remove(i) && final(self).chosen() == (
                if old(self).chosen() == Some(name@) {
                    None
                } else {
                    old(self).chosen()
                }),
                None => {
                    let before = old(self).chosen();
                    res is Err && final(self).list() == old(self).list() && final(self).chosen() == before
                },
            },
    {
        match self.find(name) {
            Some(i) => {
                self.clusters.remove(i);
                proof {
                    let before = old(self).clusters@;
                    let after = self.clusters@;
                    assert forall|a: int, b: int| 0 <= a < b < after.len() implies (#[trigger] after[a]).0@ != (
                    #[trigger] after[b]).0@ by {
                        let x = if a < i { a } else { a + 1 };
                        let y = if b < i { b } else { b + 1 };
                        assert(after[a] == before[x]);
                        assert(after[b] == before[y]);
                        assert(before[x].0@ != before[y].0@);
                    }
                }
                let in_use = match &self.current {
                    Some(current) => same(current.as_str(), name),
                    None => false,
                };
                if in_use {
                    self.current = None;
                }
                Ok(())
            },
            None => Err(String::from_str("context not found")),
        }
    }
}

/// The configuration of the tool.
#[derive(Clone, Debug, PartialEq, Eq)]
pub struct Configuration {
    pub context: Option<ContextConfiguration>,
}

} // verus!
