//! Dispatch planning: one fetch task for each entry that carries a link.

use crate::feed::Feed;
use vstd::prelude::*;

verus! {

/// A unit of concurrent work, bound to one URL.  The URL is a copy: the task
/// does not borrow from the feed.
#[derive(Debug, Clone, PartialEq, Eq)]
pub struct FetchTask {
    pub url: String,
}

impl View for FetchTask {
    type V = Seq<char>;

    open spec fn view(&self) -> Seq<char> {
        self.url@
    }
}

impl DeepView for FetchTask {
    type V = Seq<char>;

    open spec fn deep_view(&self) -> Seq<char> {
        self@
    }
}

/// The link that stands for an entry: its first, if it has any.
pub open spec fn first_link(links: Seq<Seq<char>>) -> Option<Seq<char>> {
    if links.len() > 0 {
        Some(links[0])
    } else {
        None
    }
}

/// The URLs to fetch for a feed: the first link of each entry that has one,
/// in document order.  Entries without a link leave no trace.
pub open spec fn first_links(entries: Seq<Seq<Seq<char>>>) -> Seq<Seq<char>> {
    entries.filter_map(|links: Seq<Seq<char>>| first_link(links))
}

/// Derives the fetch tasks of a feed, in dispatch order.
pub fn plan_tasks(feed: &Feed) -> (tasks: Vec<FetchTask>)
    ensures
        tasks.deep_view() == first_links(feed@),
{
    let mut tasks: Vec<FetchTask> = Vec::new();
    let ghost pick = |links: Seq<Seq<char>>| first_link(links);
    assert(tasks.deep_view() =~= feed@.take(0).filter_map(pick));
    for i in 0..feed.entries.len()
        invariant
            pick == |links: Seq<Seq<char>>| first_link(links),
            tasks.deep_view() == feed@.take(i as int).filter_map(pick),
    {
        let entry = &feed.entries[i];
        let ghost before = tasks.deep_view();
        proof {
            feed@.lemma_filter_map_take_succ(pick, i as int);
            assert(feed@[i as int] == entry@);
        }
        if entry.links.len() > 0 {
            let url = entry.links[0].clone();
            assert(url@ == entry@[0]);
            tasks.push(FetchTask { url });
            assert(tasks.deep_view() =~= before.push(entry@[0]));
        }
    }
    assert(feed@.take(feed.entries.len() as int) =~= feed@);
    tasks
}

/// Copies a list of tasks.
pub fn copy_tasks(tasks: &Vec<FetchTask>) -> (copies: Vec<FetchTask>)
    ensures
        copies.deep_view() == tasks.deep_view(),
{
    let mut copies: Vec<FetchTask> = Vec::new();
    for i in 0..tasks.len()
        invariant
            copies.len() == i,
            forall|k: int| 0 <= k < i ==> copies[k]@ == tasks[k]@,
    {
        copies.push(FetchTask { url: tasks[i].url.clone() });
    }
    assert(copies.deep_view() =~= tasks.deep_view());
    copies
}

} // verus!
