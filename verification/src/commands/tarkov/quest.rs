//! The quest command: the quests before and after a quest.

use crate::commands::tarkov::{contains_lower, hit_places, mentions, needle_of, offered, options_are};
use crate::tarkov::models::Task;
use crate::text::{append_str, lowercase, push_signed_decimal, signed_decimal, str_eq, string_of};
use crate::utils::components::menu_count;
use vstd::prelude::*;

verus! {

/// Whether `task` must be preceded by the quest with identifier `id`.
pub open spec fn requires_quest(task: Task, id: Seq<char>) -> bool {
    exists|k: int|
        0 <= k < task.task_requirements@.len() && #[trigger] task.task_requirements@[k].task.id@
            == id
}

/// The names of the quests that `task` requires, in order.
pub open spec fn previous_names(task: Task, count: nat) -> Seq<String>
    decreases count,
{
    if count == 0 {
        Seq::empty()
    } else {
        previous_names(task, (count - 1) as nat).push(
            task.task_requirements@[count - 1].task.name,
        )
    }
}

/// The names of those among the first `count` of `all_tasks` that require
/// the quest with identifier `id`, in order.
pub open spec fn next_names(all_tasks: Seq<Task>, id: Seq<char>, count: nat) -> Seq<String>
    decreases count,
{
    if count == 0 {
        Seq::empty()
    } else if requires_quest(all_tasks[count - 1], id) {
        next_names(all_tasks, id, (count - 1) as nat).push(all_tasks[count - 1].name)
    } else {
        next_names(all_tasks, id, (count - 1) as nat)
    }
}

/// Whether `task` must be preceded by the quest with identifier `id`.
pub fn needs_quest(task: &Task, id: &str) -> (needed: bool)
    ensures
        needed == requires_quest(*task, id@),
{
    let mut k: usize = 0;
    while k < task.task_requirements.len()
        invariant
            k <= task.task_requirements.len(),
            forall|j: int| 0 <= j < k ==> #[trigger] task.task_requirements@[j].task.id@ != id@,
        decreases task.task_requirements.len() - k,
    {
        if str_eq(task.task_requirements[k].task.id.as_str(), id) {
            return true;
        }
        k = k + 1;
    }
    false
}

/// The chain around `task`: the names of the quests that it requires, and
/// the names of the quests of `all_tasks` that require it.
pub fn build_quest_chain(task: &Task, all_tasks: &Vec<Task>) -> (chain: (Vec<String>, Vec<String>))
    ensures
        chain.0@ == previous_names(*task, task.task_requirements@.len()),
        chain.1@ == next_names(all_tasks@, task.id@, all_tasks@.len()),
{
    let mut prev: Vec<String> = Vec::new();
    let mut i: usize = 0;
    while i < task.task_requirements.len()
        invariant
            i <= task.task_requirements.len(),
            prev@ == previous_names(*task, i as nat),
        decreases task.task_requirements.len() - i,
    {
        prev.push(task.task_requirements[i].task.name.clone());
        i = i + 1;
    }
    let mut next: Vec<String> = Vec::new();
    let mut j: usize = 0;
    while j < all_tasks.len()
        invariant
            j <= all_tasks.len(),
            next@ == next_names(all_tasks@, task.id@, j as nat),
        decreases all_tasks.len() - j,
    {
        if needs_quest(&all_tasks[j], task.id.as_str()) {
            next.push(all_tasks[j].name.clone());
        }
        j = j + 1;
    }
    (prev, next)
}

/// Whether each of `tasks` mentions `needle` in its name.
pub open spec fn task_hits(tasks: Seq<Task>, needle: Seq<char>) -> Seq<bool> {
    Seq::new(tasks.len(), |i: int| mentions(tasks[i].name@, needle))
}

/// What the menu offers of `task`: its identifier, its name, and its
/// trader with the level from which it can be taken, 0 where none is
/// given.
pub open spec fn task_option(task: Task) -> (Seq<char>, Seq<char>, Seq<char>) {
    (
        task.id@,
        task.name@,
        task.trader.name@ + " | Lv."@ + signed_decimal(
            match task.min_player_level {
                Some(level) => level as int,
                None => 0,
            },
        ),
    )
}

/// The places of the quests whose names hold the search word `name`, in
/// any mix of upper and lower case.
pub fn search_tasks(tasks: &Vec<Task>, name: &str) -> (places: Vec<usize>)
    ensures
        places@ == hit_places(task_hits(tasks@, lowercase(name@)), tasks@.len()),
{
    let needle = needle_of(name);
    let mut places: Vec<usize> = Vec::new();
    let mut i: usize = 0;
    while i < tasks.len()
        invariant
            i <= tasks.len(),
            needle@ == lowercase(name@),
            places@ == hit_places(task_hits(tasks@, needle@), i as nat),
        decreases tasks.len() - i,
    {
        if contains_lower(tasks[i].name.as_str(), &needle) {
            places.push(i);
        }
        i = i + 1;
    }
    places
}

/// The options of the menu of the quests found: the first 25 of those at
/// `places` in `tasks`.
pub fn task_options(tasks: &Vec<Task>, places: &Vec<usize>) -> (options: Vec<
    (String, String, String),
>)
    requires
        forall|k: int| 0 <= k < places@.len() ==> (#[trigger] places@[k]) < tasks@.len(),
    ensures
        options_are(
            options@,
            Seq::new(offered(places@.len()), |i: int| task_option(tasks@[places@[i] as int])),
        ),
{
    let count = menu_count(places.len());
    let mut options: Vec<(String, String, String)> = Vec::new();
    let mut i: usize = 0;
    while i < count
        invariant
            i <= count <= places.len(),
            options@.len() == i,
            forall|k: int| 0 <= k < places@.len() ==> (#[trigger] places@[k]) < tasks@.len(),
            forall|k: int|
                0 <= k < i ==> (#[trigger] options@[k]).0@ == task_option(
                    tasks@[places@[k] as int],
                ).0 && options@[k].1@ == task_option(tasks@[places@[k] as int]).1
                    && options@[k].2@ == task_option(tasks@[places@[k] as int]).2,
        decreases count - i,
    {
        let task = &tasks[places[i]];
        let mut hint: Vec<char> = Vec::new();
        append_str(&mut hint, task.trader.name.as_str());
        append_str(&mut hint, " | Lv.");
        let level = match task.min_player_level {
            Some(level) => level,
            None => 0,
        };
        push_signed_decimal(&mut hint, level as i64);
        assert(hint@ =~= task_option(*task).2);
        options.push((task.id.clone(), task.name.clone(), string_of(&hint)));
        i = i + 1;
    }
    options
}

} // verus!
