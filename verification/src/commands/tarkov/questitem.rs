//! The quest item command: the quests whose objectives mention an item.

use crate::commands::tarkov::{contains_lower, mentions, needle_of};
use crate::tarkov::models::Task;
use crate::text::lowercase;
use vstd::prelude::*;

verus! {

/// Whether an objective of `task` mentions `needle`.
pub open spec fn asks_for(task: Task, needle: Seq<char>) -> bool {
    exists|k: int|
        0 <= k < task.objectives@.len() && mentions(
            (#[trigger] task.objectives@[k]).description@,
            needle,
        )
}

/// Those among the first `count` of `tasks` that ask for `needle`, each by
/// its name and the name of its trader, in order.
pub open spec fn quests_asking(tasks: Seq<Task>, needle: Seq<char>, count: nat) -> Seq<
    (Seq<char>, Seq<char>),
>
    decreases count,
{
    if count == 0 {
        Seq::empty()
    } else if asks_for(tasks[count - 1], needle) {
        quests_asking(tasks, needle, (count - 1) as nat).push(
            (tasks[count - 1].name@, tasks[count - 1].trader.name@),
        )
    } else {
        quests_asking(tasks, needle, (count - 1) as nat)
    }
}

/// Whether an objective of `task` mentions `needle`.
pub fn task_asks_for(task: &Task, needle: &Vec<char>) -> (found: bool)
    ensures
        found == asks_for(*task, needle@),
{
    let mut k: usize = 0;
    while k < task.objectives.len()
        invariant
            k <= task.objectives.len(),
            forall|j: int|
                0 <= j < k ==> !mentions((#[trigger] task.objectives@[j]).description@, needle@),
        decreases task.objectives.len() - k,
    {
        if contains_lower(task.objectives[k].description.as_str(), needle) {
            return true;
        }
        k = k + 1;
    }
    false
}

/// The quests with an objective that mentions the item `name`, in any mix
/// of upper and lower case: each by its name and the name of its trader.
pub fn matching_quests(all_tasks: &Vec<Task>, name: &str) -> (quests: Vec<(String, String)>)
    ensures
        quests@.len() == quests_asking(all_tasks@, lowercase(name@), all_tasks@.len()).len(),
        forall|k: int|
            0 <= k < quests@.len() ==> (#[trigger] quests@[k]).0@ == quests_asking(
                all_tasks@,
                lowercase(name@),
                all_tasks@.len(),
            )[k].0 && quests@[k].1@ == quests_asking(
                all_tasks@,
                lowercase(name@),
                all_tasks@.len(),
            )[k].1,
{
    let needle = needle_of(name);
    let mut quests: Vec<(String, String)> = Vec::new();
    let mut i: usize = 0;
    while i < all_tasks.len()
        invariant
            i <= all_tasks.len(),
            needle@ == lowercase(name@),
            quests@.len() == quests_asking(all_tasks@, needle@, i as nat).len(),
            forall|k: int|
                0 <= k < quests@.len() ==> (#[trigger] quests@[k]).0@ == quests_asking(
                    all_tasks@,
                    needle@,
                    i as nat,
                )[k].0 && quests@[k].1@ == quests_asking(all_tasks@, needle@, i as nat)[k].1,
        decreases all_tasks.len() - i,
    {
        if task_asks_for(&all_tasks[i], &needle) {
            quests.push((all_tasks[i].name.clone(), all_tasks[i].trader.name.clone()));
        }
        i = i + 1;
    }
    quests
}

/// Whether the list of quests has buttons to turn pages: only where it
/// fills more than one page.
pub fn needs_pages(count: usize) -> (paged: bool)
    ensures
        paged == (count > crate::tarkov::embed::ITEMS_PER_PAGE),
{
    count > crate::tarkov::embed::ITEMS_PER_PAGE
}

} // verus!
