//! Operations on a task list, and the order in which a list is displayed.
//!
//! A list is kept in the order in which its tasks were added. It is displayed
//! by priority, highest first, and tasks of one priority in the order in which
//! they are kept. Positions that a user names are positions in that display.

use crate::task::{models, Task, TaskModel};
use vstd::prelude::*;

verus! {

/// The list without the task at `position`, or the list itself where it has
/// no such position.
pub open spec fn removed_at(tasks: Seq<TaskModel>, position: int) -> Seq<TaskModel> {
    if 0 <= position < tasks.len() {
        tasks.remove(position)
    } else {
        tasks
    }
}

/// The positions below `end` at which the list keeps a task of priority
/// `level`, in ascending order.
pub open spec fn positions_at(tasks: Seq<TaskModel>, level: int, end: int) -> Seq<int>
    decreases end,
{
    if end <= 0 {
        Seq::empty()
    } else if tasks[end - 1].priority == level {
        positions_at(tasks, level, end - 1).push(end - 1)
    } else {
        positions_at(tasks, level, end - 1)
    }
}

/// The positions below `end` at which the list keeps a task of priority
/// `level` or higher: those of the highest priority first, and those of one
/// priority in ascending order.
pub open spec fn positions_from(tasks: Seq<TaskModel>, level: int, end: int) -> Seq<int>
    decreases 256 - level,
{
    if level > 255 {
        Seq::empty()
    } else {
        positions_from(tasks, level + 1, end) + positions_at(tasks, level, end)
    }
}

/// For each row of the display, from the top, the position at which the list
/// keeps that row's task.
pub open spec fn display_positions(tasks: Seq<TaskModel>) -> Seq<int> {
    positions_from(tasks, 0, tasks.len() as int)
}

/// The tasks in the order of the display.
pub open spec fn display_order(tasks: Seq<TaskModel>) -> Seq<TaskModel> {
    display_positions(tasks).map_values(|position: int| tasks[position])
}

/// The list without the task that the display shows at `position`, or the list
/// itself where the display has no such row.
pub open spec fn removed_displayed(tasks: Seq<TaskModel>, position: int) -> Seq<TaskModel> {
    if 0 <= position < tasks.len() {
        tasks.remove(display_positions(tasks)[position])
    } else {
        tasks
    }
}

/// Positions as mathematical integers.
pub open spec fn as_ints(positions: Seq<usize>) -> Seq<int> {
    positions.map_values(|position: usize| position as int)
}

proof fn lemma_positions_at(tasks: Seq<TaskModel>, level: int, end: int)
    requires
        end <= tasks.len(),
    ensures
        forall|i: int|
            0 <= i < positions_at(tasks, level, end).len() ==> 0 <= (#[trigger] positions_at(
                tasks,
                level,
                end,
            )[i]) < end && tasks[positions_at(tasks, level, end)[i]].priority == level,
        forall|i: int, j: int|
            0 <= i < j < positions_at(tasks, level, end).len() ==> (#[trigger] positions_at(
                tasks,
                level,
                end,
            )[i]) < (#[trigger] positions_at(tasks, level, end)[j]),
        forall|k: int|
            0 <= k < end && (#[trigger] tasks[k]).priority == level ==> positions_at(
                tasks,
                level,
                end,
            ).contains(k),
    decreases end,
{
    if end > 0 {
        lemma_positions_at(tasks, level, end - 1);
        let before = positions_at(tasks, level, end - 1);
        let now = positions_at(tasks, level, end);
        assert forall|k: int| 0 <= k < end && (#[trigger] tasks[k]).priority == level implies now.contains(
            k,
        ) by {
            if k < end - 1 {
                assert(before.contains(k));
                let i = choose|i: int| 0 <= i < before.len() && before[i] == k;
                assert(now[i] == k);
            } else {
                assert(now[now.len() - 1] == k);
            }
        }
    }
}

proof fn lemma_positions_from(tasks: Seq<TaskModel>, level: int, end: int)
    requires
        0 <= level,
        end <= tasks.len(),
    ensures
        forall|i: int|
            0 <= i < positions_from(tasks, level, end).len() ==> 0 <= (#[trigger] positions_from(
                tasks,
                level,
                end,
            )[i]) < end && tasks[positions_from(tasks, level, end)[i]].priority >= level,
        forall|i: int, j: int|
            0 <= i < j < positions_from(tasks, level, end).len() ==> follows(
                tasks,
                #[trigger] positions_from(tasks, level, end)[i],
                #[trigger] positions_from(tasks, level, end)[j],
            ),
        forall|k: int|
            0 <= k < end && (#[trigger] tasks[k]).priority >= level ==> positions_from(
                tasks,
                level,
                end,
            ).contains(k),
    decreases 256 - level,
{
    if level <= 255 {
        lemma_positions_from(tasks, level + 1, end);
        lemma_positions_at(tasks, level, end);
        let higher = positions_from(tasks, level + 1, end);
        let here = positions_at(tasks, level, end);
        let all = positions_from(tasks, level, end);
        assert(all == higher + here);
        assert forall|i: int| 0 <= i < all.len() implies 0 <= (#[trigger] all[i]) < end
            && tasks[all[i]].priority >= level by {
            if i >= higher.len() {
                assert(all[i] == here[i - higher.len()]);
            }
        }
        assert forall|i: int, j: int| 0 <= i < j < all.len() implies follows(
            tasks,
            #[trigger] all[i],
            #[trigger] all[j],
        ) by {
            if j < higher.len() {
            } else if i < higher.len() {
                assert(all[j] == here[j - higher.len()]);
            } else {
                assert(all[i] == here[i - higher.len()]);
                assert(all[j] == here[j - higher.len()]);
            }
        }
        assert forall|k: int| 0 <= k < end && (#[trigger] tasks[k]).priority >= level implies all.contains(
            k,
        ) by {
            if tasks[k].priority == level {
                assert(here.contains(k));
                let i = choose|i: int| 0 <= i < here.len() && here[i] == k;
                assert(all[higher.len() + i] == k);
            } else {
                assert(higher.contains(k));
                let i = choose|i: int| 0 <= i < higher.len() && higher[i] == k;
                assert(all[i] == k);
            }
        }
    }
}

proof fn lemma_positions_grow(tasks: Seq<TaskModel>, level: int, end: int)
    requires
        0 <= level <= 256,
        0 <= end < tasks.len(),
    ensures
        positions_from(tasks, level, end + 1).len() == positions_from(tasks, level, end).len() + (
        if tasks[end].priority >= level {
            1int
        } else {
            0int
        }),
    decreases 256 - level,
{
    if level <= 255 {
        lemma_positions_grow(tasks, level + 1, end);
    }
}

proof fn lemma_positions_count(tasks: Seq<TaskModel>, end: int)
    requires
        0 <= end <= tasks.len(),
    ensures
        positions_from(tasks, 0, end).len() == end,
    decreases end,
{
    if end > 0 {
        lemma_positions_count(tasks, end - 1);
        lemma_positions_grow(tasks, 0, end - 1);
    } else {
        lemma_positions_empty(tasks, 0);
    }
}

proof fn lemma_positions_empty(tasks: Seq<TaskModel>, level: int)
    requires
        0 <= level <= 256,
    ensures
        positions_from(tasks, level, 0).len() == 0,
    decreases 256 - level,
{
    if level <= 255 {
        lemma_positions_empty(tasks, level + 1);
    }
}

/// The positions at priority `upper` or higher open the positions at priority
/// `level` or higher, for `level` up to `upper`; those that come after them are
/// of priorities below `upper`.
proof fn lemma_positions_prefix(tasks: Seq<TaskModel>, level: int, upper: int, end: int)
    requires
        0 <= level <= upper <= 256,
        end <= tasks.len(),
    ensures
        positions_from(tasks, upper, end).len() <= positions_from(tasks, level, end).len(),
        positions_from(tasks, level, end).take(positions_from(tasks, upper, end).len() as int)
            == positions_from(tasks, upper, end),
        forall|row: int|
            positions_from(tasks, upper, end).len() <= row < positions_from(
                tasks,
                level,
                end,
            ).len() ==> tasks[#[trigger] positions_from(tasks, level, end)[row]].priority < upper,
    decreases upper - level,
{
    let here = positions_from(tasks, level, end);
    let top = positions_from(tasks, upper, end);
    if level < upper {
        lemma_positions_prefix(tasks, level + 1, upper, end);
        lemma_positions_at(tasks, level, end);
        let higher = positions_from(tasks, level + 1, end);
        let band = positions_at(tasks, level, end);
        assert(here == higher + band);
        assert(here.take(top.len() as int) =~= higher.take(top.len() as int));
        assert forall|row: int| top.len() <= row < here.len() implies tasks[#[trigger] here[row]].priority
            < upper by {
            if row < higher.len() {
                assert(here[row] == higher[row]);
            } else {
                assert(here[row] == band[row - higher.len()]);
            }
        }
    } else {
        assert(here.take(top.len() as int) =~= top);
    }
}

/// What one more task does to the positions at priority `level` or higher:
/// its position goes below those of its own priority or a higher one, where
/// its priority is `level` or higher, and nothing changes where it is not.
proof fn lemma_positions_insert(tasks: Seq<TaskModel>, level: int, end: int)
    requires
        0 <= level <= 256,
        0 <= end < tasks.len(),
    ensures
        tasks[end].priority < level ==> positions_from(tasks, level, end + 1) == positions_from(
            tasks,
            level,
            end,
        ),
        tasks[end].priority >= level ==> positions_from(tasks, level, end + 1) == positions_from(
            tasks,
            level,
            end,
        ).insert(positions_from(tasks, tasks[end].priority as int, end).len() as int, end),
    decreases 256 - level,
{
    let added = tasks[end].priority as int;
    if level <= 255 {
        lemma_positions_insert(tasks, level + 1, end);
        let higher = positions_from(tasks, level + 1, end);
        let band = positions_at(tasks, level, end);
        let slot = positions_from(tasks, added, end).len() as int;
        if added == level {
            assert(positions_from(tasks, level, end + 1) =~= (higher + band).insert(slot, end));
        } else if added > level {
            lemma_positions_prefix(tasks, level + 1, added, end);
            assert(positions_from(tasks, level, end + 1) =~= (higher + band).insert(slot, end));
        }
    }
}

/// The task kept at position `first` is displayed above the one kept at
/// `second`: its priority is higher, or the two are equal and it is kept
/// before the other.
pub open spec fn follows(tasks: Seq<TaskModel>, first: int, second: int) -> bool {
    tasks[first].priority > tasks[second].priority || (tasks[first].priority
        == tasks[second].priority && first < second)
}

/// The display is a stable sort of the list by priority, highest first: it
/// shows every task of the list once, priorities never rise from one row to
/// the next, and tasks of equal priority stay in the order in which the list
/// keeps them.
pub proof fn lemma_display_is_stable_sort(tasks: Seq<TaskModel>)
    ensures
        display_positions(tasks).len() == tasks.len(),
        display_order(tasks).len() == tasks.len(),
        forall|row: int|
            0 <= row < tasks.len() ==> 0 <= (#[trigger] display_positions(tasks)[row])
                < tasks.len(),
        forall|position: int|
            0 <= position < tasks.len() ==> display_positions(tasks).contains(position),
        forall|above: int, below: int|
            0 <= above < below < tasks.len() ==> (#[trigger] display_positions(tasks)[above])
                != (#[trigger] display_positions(tasks)[below]),
        forall|above: int, below: int|
            0 <= above < below < tasks.len() ==> (#[trigger] display_order(
                tasks,
            )[above]).priority >= (#[trigger] display_order(tasks)[below]).priority,
        forall|above: int, below: int|
            0 <= above < below < tasks.len() && display_order(tasks)[above].priority
                == display_order(tasks)[below].priority ==> (#[trigger] display_positions(
                tasks,
            )[above]) < (#[trigger] display_positions(tasks)[below]),
{
    let end = tasks.len() as int;
    lemma_positions_count(tasks, end);
    lemma_positions_from(tasks, 0, end);
    let shown = display_positions(tasks);
    assert forall|position: int| 0 <= position < tasks.len() implies shown.contains(position) by {
        assert(tasks[position].priority >= 0);
    }
    assert forall|above: int, below: int| 0 <= above < below < tasks.len() implies (
    #[trigger] shown[above]) != (#[trigger] shown[below]) by {
        assert(follows(tasks, shown[above], shown[below]));
    }
    assert forall|above: int, below: int| 0 <= above < below < tasks.len() implies (
    #[trigger] display_order(tasks)[above]).priority >= (#[trigger] display_order(
        tasks,
    )[below]).priority by {
        assert(follows(tasks, shown[above], shown[below]));
    }
    assert forall|above: int, below: int|
        0 <= above < below < tasks.len() && display_order(tasks)[above].priority == display_order(
            tasks,
        )[below].priority implies (#[trigger] shown[above]) < (#[trigger] shown[below]) by {
        assert(follows(tasks, shown[above], shown[below]));
    }
}

/// Whether two lists hold the same tasks in the same order.
pub fn same_tasks(first: &Vec<Task>, second: &Vec<Task>) -> (same: bool)
    ensures
        same == (models(first@) == models(second@)),
{
    if first.len() != second.len() {
        assert(models(first@).len() != models(second@).len());
        return false;
    }
    let mut i: usize = 0;
    while i < first.len()
        invariant
            i <= first.len(),
            first.len() == second.len(),
            forall|j: int| 0 <= j < i ==> (#[trigger] first@[j])@ == second@[j]@,
        decreases first.len() - i,
    {
        if first[i].priority != second[i].priority || first[i].description
            != second[i].description {
            assert(models(first@)[i as int] != models(second@)[i as int]);
            return false;
        }
        i += 1;
    }
    assert(models(first@) =~= models(second@));
    true
}

/// Places `task` at the end of the list.
pub fn append(tasks: &mut Vec<Task>, task: Task)
    ensures
        final(tasks)@ == old(tasks)@.push(task),
        models(final(tasks)@) == models(old(tasks)@).push(task@),
{
    tasks.push(task);
}

/// Removes the task that the list keeps at `position`. A list without such a
/// position stays as it is.
pub fn remove_at(tasks: &mut Vec<Task>, position: usize)
    ensures
        models(final(tasks)@) == removed_at(models(old(tasks)@), position as int),
        position >= old(tasks)@.len() ==> final(tasks)@ == old(tasks)@,
{
    if position < tasks.len() {
        tasks.remove(position);
    }
}

/// For each row of the display, from the top, the position at which the list
/// keeps that row's task. The positions are found by a stable insertion sort:
/// each task in turn goes below those of its own priority or a higher one.
pub fn stored_positions(tasks: &Vec<Task>) -> (order: Vec<usize>)
    ensures
        as_ints(order@) == display_positions(models(tasks@)),
        order@.len() == tasks@.len(),
        forall|row: int| 0 <= row < order@.len() ==> (#[trigger] order@[row]) < tasks@.len(),
{
    let ghost kept = models(tasks@);
    let mut order: Vec<usize> = Vec::new();
    let mut next: usize = 0;
    proof {
        lemma_positions_empty(kept, 0);
    }
    while next < tasks.len()
        invariant
            next <= tasks.len(),
            kept == models(tasks@),
            as_ints(order@) == positions_from(kept, 0, next as int),
        decreases tasks.len() - next,
    {
        let level = tasks[next].priority;
        let ghost shown = positions_from(kept, 0, next as int);
        let ghost above = positions_from(kept, level as int, next as int);
        proof {
            lemma_positions_from(kept, 0, next as int);
            lemma_positions_from(kept, level as int, next as int);
            lemma_positions_prefix(kept, 0, level as int, next as int);
            assert(forall|row: int|
                0 <= row < order@.len() ==> (#[trigger] order@[row]) as int == shown[row]);
        }
        let mut slot: usize = order.len();
        while slot > 0 && tasks[order[slot - 1]].priority < level
            invariant
                slot <= order@.len(),
                kept == models(tasks@),
                next < tasks.len(),
                order@.len() == shown.len(),
                forall|row: int|
                    0 <= row < order@.len() ==> 0 <= (#[trigger] order@[row]) as int == shown[row]
                        < next,
                forall|row: int|
                    slot <= row < shown.len() ==> kept[#[trigger] shown[row]].priority < level,
            decreases slot,
        {
            slot -= 1;
            assert(kept[shown[slot as int]].priority == tasks@[order@[slot as int] as int].priority);
        }
        proof {
            if slot > 0 {
                assert(kept[shown[slot - 1]].priority == tasks@[order@[slot - 1] as int].priority);
            }
            if slot < above.len() {
                assert(shown[slot as int] == above[slot as int]);
            }
            assert(slot == above.len());
            lemma_positions_insert(kept, 0, next as int);
            assert(as_ints(order@.insert(slot as int, next)) =~= shown.insert(
                slot as int,
                next as int,
            ));
        }
        order.insert(slot, next);
        next += 1;
    }
    proof {
        lemma_display_is_stable_sort(kept);
        assert(as_ints(order@).len() == order@.len());
        assert forall|row: int| 0 <= row < order@.len() implies (#[trigger] order@[row])
            < tasks@.len() by {
            assert(as_ints(order@)[row] == order@[row] as int);
        }
    }
    order
}

/// The tasks in the order of the display: by priority, highest first, and
/// tasks of one priority in the order in which the list keeps them.
pub fn sort_for_display(tasks: &Vec<Task>) -> (sorted: Vec<Task>)
    ensures
        models(sorted@) == display_order(models(tasks@)),
        sorted@.len() == tasks@.len(),
{
    let order = stored_positions(tasks);
    let mut sorted: Vec<Task> = Vec::new();
    let mut row: usize = 0;
    while row < order.len()
        invariant
            row <= order.len(),
            sorted@.len() == row,
            order@.len() == tasks@.len(),
            as_ints(order@) == display_positions(models(tasks@)),
            forall|r: int| 0 <= r < order@.len() ==> (#[trigger] order@[r]) < tasks@.len(),
            forall|r: int| 0 <= r < row ==> (#[trigger] sorted@[r])@ == tasks@[order@[r] as int]@,
        decreases order.len() - row,
    {
        sorted.push(tasks[order[row]].clone());
        row += 1;
    }
    proof {
        let shown = display_positions(models(tasks@));
        assert forall|r: int| 0 <= r < sorted@.len() implies (#[trigger] models(sorted@)[r])
            == display_order(models(tasks@))[r] by {
            assert(as_ints(order@)[r] == order@[r] as int);
        }
    }
    sorted
}

/// Removes the task that the display shows at `position`. A list whose display
/// has no such row stays as it is.
pub fn remove_displayed(tasks: &mut Vec<Task>, position: usize)
    ensures
        models(final(tasks)@) == removed_displayed(models(old(tasks)@), position as int),
        position >= old(tasks)@.len() ==> final(tasks)@ == old(tasks)@,
{
    if position < tasks.len() {
        let order = stored_positions(tasks);
        assert(as_ints(order@)[position as int] == order@[position as int] as int);
        tasks.remove(order[position]);
    }
}

} // verus!
