//! Which of the processes of a terminal is in the foreground.
use crate::text::{
    chars, parse_signed, signed_value, split_words, string_of, texts, trim, trimmed, words,
};
use std::collections::{HashMap, HashSet};
use vstd::prelude::*;

verus! {

/// What is known of a process.
pub struct ProcessInfo {
    pub pid: i32,
    pub ppid: i32,
    pub pgrp: i32,
    pub name: String,
}

/// `n` steps from `pid` towards its first ancestor.
pub open spec fn ancestor(parents: Map<i32, i32>, pid: i32, n: nat) -> Option<i32>
    decreases n,
{
    if n == 0 {
        Some(pid)
    } else {
        match ancestor(parents, pid, (n - 1) as nat) {
            Some(p) => if p > 0 && parents.contains_key(p) {
                Some(parents[p])
            } else {
                None
            },
            None => None,
        }
    }
}

/// The first `d` steps from `pid` reach `d` different processes.
pub open spec fn climbs(parents: Map<i32, i32>, pid: i32, d: nat) -> bool {
    &&& forall|i: nat|
        i < d ==> (#[trigger] ancestor(parents, pid, i) matches Some(p) && p > 0)
    &&& forall|i: nat, j: nat|
        i < j < d ==> #[trigger] ancestor(parents, pid, i) != #[trigger] ancestor(parents, pid, j)
}

/// How many different processes the way from `pid` to its first ancestor holds.
pub open spec fn is_depth(parents: Map<i32, i32>, pid: i32, d: nat) -> bool {
    climbs(parents, pid, d) && !climbs(parents, pid, d + 1)
}

/// There is only one depth.
pub proof fn law_depth_is_unique(parents: Map<i32, i32>, pid: i32, a: nat, b: nat)
    requires
        is_depth(parents, pid, a),
        is_depth(parents, pid, b),
    ensures
        a == b,
{
    if a < b {
        assert(climbs(parents, pid, a + 1));
    } else if b < a {
        assert(climbs(parents, pid, b + 1));
    }
}

/// How many different processes the way from `pid` to its first ancestor holds.
pub fn process_depth(pid: i32, parents: &HashMap<i32, i32>) -> (d: usize)
    ensures
        is_depth(parents@, pid, d as nat),
{
    broadcast use vstd::std_specs::hash::group_hash_axioms;

    let mut current: i32 = pid;
    let mut seen: HashSet<i32> = HashSet::new();
    let ghost map = parents@;
    let ghost mut n: nat = 0;
    loop
        invariant
            map == parents@,
            map.dom().finite(),
            seen@.finite(),
            seen@.len() == n,
            climbs(map, pid, n),
            ancestor(map, pid, n) == Some(current),
            forall|i: nat| i < n ==> seen@.contains((#[trigger] ancestor(map, pid, i))->0),
            forall|p: i32| #[trigger]
                seen@.contains(p) ==> exists|i: nat|
                    i < n && #[trigger] ancestor(map, pid, i) == Some(p),
        decreases map.dom().difference(seen@).len(),
    {
        if current <= 0 || seen.contains(&current) {
            assert(!climbs(map, pid, n + 1)) by {
                if climbs(map, pid, n + 1) {
                    assert(ancestor(map, pid, n) matches Some(p) && p > 0);
                    let i = choose|i: nat|
                        i < n && #[trigger] ancestor(map, pid, i) == Some(current);
                    assert(ancestor(map, pid, i) != ancestor(map, pid, n));
                }
            }
            return seen.len();
        }
        let ghost before = seen@;
        seen.insert(current);
        proof {
            assert forall|i: nat, j: nat| i < j < n + 1 implies #[trigger] ancestor(map, pid, i)
                != #[trigger] ancestor(map, pid, j) by {
                if j == n {
                    assert(before.contains(ancestor(map, pid, i)->0));
                }
            }
            assert(climbs(map, pid, n + 1));
            assert forall|p: i32| #[trigger] seen@.contains(p) implies exists|i: nat|
                i < n + 1 && #[trigger] ancestor(map, pid, i) == Some(p) by {
                if p == current {
                    assert(ancestor(map, pid, n) == Some(p));
                } else {
                    let i = choose|i: nat| i < n && #[trigger] ancestor(map, pid, i) == Some(p);
                    assert(i < n + 1 && ancestor(map, pid, i) == Some(p));
                }
            }
        }
        match parents.get(&current) {
            None => {
                assert(!climbs(map, pid, n + 2)) by {
                    assert(ancestor(map, pid, n + 1) is None);
                    if climbs(map, pid, n + 2) {
                        assert(ancestor(map, pid, n + 1) matches Some(p) && p > 0);
                    }
                }
                return seen.len();
            },
            Some(parent) => {
                proof {
                    assert(map.dom().contains(current));
                    assert(map.dom().difference(seen@) =~= map.dom().difference(before).remove(
                        current,
                    ));
                    assert(map.dom().difference(before).contains(current));
                    assert(ancestor(map, pid, n + 1) == Some(*parent));
                    n = n + 1;
                }
                current = *parent;
            },
        }
    }
}

/// The parent of each process; of two with the same number the later one counts.
pub open spec fn parent_map(processes: Seq<ProcessInfo>) -> Map<i32, i32>
    decreases processes.len(),
{
    if processes.len() == 0 {
        Map::empty()
    } else {
        parent_map(processes.drop_last()).insert(processes.last().pid, processes.last().ppid)
    }
}

/// The parent of each process.
pub fn parents_of(processes: &Vec<ProcessInfo>) -> (r: HashMap<i32, i32>)
    ensures
        r@ == parent_map(processes@),
{
    broadcast use vstd::std_specs::hash::group_hash_axioms;

    let mut r: HashMap<i32, i32> = HashMap::new();
    let mut i: usize = 0;
    assert(r@ =~= parent_map(processes@.take(0)));
    while i < processes.len()
        invariant
            i <= processes@.len(),
            r@ == parent_map(processes@.take(i as int)),
        decreases processes@.len() - i,
    {
        r.insert(processes[i].pid, processes[i].ppid);
        assert(processes@.take(i + 1).drop_last() =~= processes@.take(i as int));
        i += 1;
    }
    assert(processes@.take(i as int) =~= processes@);
    r
}

/// The name of a process ends before `i`.
pub open spec fn closes_at(stat: Seq<char>, i: int) -> bool {
    0 <= i && i + 1 < stat.len() && stat[i] == ')' && stat[i + 1] == ' '
}

/// The name of a process, which may hold brackets itself, ends before `i`.
pub open spec fn last_close(stat: Seq<char>, i: int) -> bool {
    &&& closes_at(stat, i)
    &&& forall|j: int| i < j ==> !(#[trigger] closes_at(stat, j))
}

/// The numbers of the parent and of the group in the fields behind the name of a process.
pub open spec fn stat_numbers(fields: Seq<Seq<char>>) -> Option<(int, int)> {
    if fields.len() > 2 {
        match (signed_value(fields[1]), signed_value(fields[2])) {
            (Some(ppid), Some(pgrp)) => Some((ppid, pgrp)),
            _ => None,
        }
    } else {
        None
    }
}

/// The numbers of the parent and of the group of a process, out of its status line.
pub fn parse_stat(stat: &str) -> (r: Option<(i32, i32)>)
    ensures
        match r {
            Some((ppid, pgrp)) => exists|i: int| #[trigger]
                last_close(stat@, i) && stat_numbers(words(stat@.skip(i + 2))) == Some(
                    (ppid as int, pgrp as int),
                ),
            None => forall|i: int| #[trigger]
                last_close(stat@, i) ==> stat_numbers(words(stat@.skip(i + 2))) is None,
        },
{
    let v = chars(stat);
    let mut end: usize = v.len();
    while end >= 2 && !(v[end - 2] == ')' && v[end - 1] == ' ')
        invariant
            end <= v@.len(),
            v@ == stat@,
            forall|j: int| end - 2 < j ==> !(#[trigger] closes_at(stat@, j)),
        decreases end,
    {
        end -= 1;
    }
    if end < 2 {
        return None;
    }
    assert(last_close(stat@, end - 2));
    assert forall|i: int| last_close(stat@, i) implies i == end - 2 by {
        if i < end - 2 {
            assert(!closes_at(stat@, end - 2));
        }
    }
    let rest = string_of(&v, end, v.len());
    assert(rest@ =~= stat@.skip(end as int));
    let fields = split_words(rest.as_str());
    assert(texts(fields@).len() == fields@.len());
    if fields.len() <= 2 {
        return None;
    }
    assert(texts(fields@)[1] == fields@[1]@);
    assert(texts(fields@)[2] == fields@[2]@);
    match (parse_signed(fields[1].as_str()), parse_signed(fields[2].as_str())) {
        (Some(ppid), Some(pgrp)) => Some((ppid, pgrp)),
        _ => None,
    }
}

/// What is known of a process, out of its status line and the file that holds its name.
pub fn process_info(pid: i32, ppid: i32, pgrp: i32, comm: &str) -> (r: ProcessInfo)
    ensures
        r.pid == pid,
        r.ppid == ppid,
        r.pgrp == pgrp,
        r.name@ == trimmed(comm@),
{
    ProcessInfo { pid, ppid, pgrp, name: trim(comm) }
}

/// Process `k` belongs to the group.
pub open spec fn in_group(processes: Seq<ProcessInfo>, group: i32, k: int) -> bool {
    0 <= k < processes.len() && processes[k].pgrp == group
}

/// Process `k` belongs to the group and is attached to the terminal.
pub open spec fn is_attached(
    processes: Seq<ProcessInfo>,
    group: i32,
    attached: Seq<i32>,
    k: int,
) -> bool {
    in_group(processes, group, k) && attached.contains(processes[k].pid)
}

/// Process `k` may be the one in the foreground: it belongs to the group and, if it is known
/// who is attached to the terminal and anybody of the group is, it is attached too.
pub open spec fn is_candidate(
    processes: Seq<ProcessInfo>,
    group: i32,
    attached: Option<Seq<i32>>,
    k: int,
) -> bool {
    &&& in_group(processes, group, k)
    &&& attached matches Some(pids) ==> {
        ||| is_attached(processes, group, pids, k)
        ||| forall|j: int| !(#[trigger] is_attached(processes, group, pids, j))
    }
}

/// A process at depth `da` comes before one at depth `db`: it is less deep, or as deep and of a
/// lower number.
pub open spec fn precedes(da: nat, a: i32, db: nat, b: i32) -> bool {
    da < db || (da == db && a < b)
}

/// Process `k` is the one in the foreground: no candidate is deeper, or as deep and of a higher
/// number; of equals it is the last.
pub open spec fn is_foreground(
    processes: Seq<ProcessInfo>,
    group: i32,
    attached: Option<Seq<i32>>,
    k: int,
) -> bool {
    &&& is_candidate(processes, group, attached, k)
    &&& forall|j: int, dj: nat, dk: nat| #[trigger]
        is_candidate(processes, group, attached, j) && #[trigger] is_depth(
            parent_map(processes),
            processes[j].pid,
            dj,
        ) && #[trigger] is_depth(parent_map(processes), processes[k].pid, dk) ==> {
            &&& !precedes(dk, processes[k].pid, dj, processes[j].pid)
            &&& j > k ==> precedes(dj, processes[j].pid, dk, processes[k].pid)
        }
}

/// The processes that are known to be attached.
pub open spec fn opt_pids(attached: Option<Vec<i32>>) -> Option<Seq<i32>> {
    match attached {
        Some(pids) => Some(pids@),
        None => None,
    }
}

fn holds_pid(pids: &Vec<i32>, pid: i32) -> (r: bool)
    ensures
        r == pids@.contains(pid),
{
    let mut i: usize = 0;
    while i < pids.len()
        invariant
            i <= pids@.len(),
            forall|j: int| 0 <= j < i ==> pids@[j] != pid,
        decreases pids@.len() - i,
    {
        if pids[i] == pid {
            return true;
        }
        i += 1;
    }
    false
}

/// The numbers of the processes of a group, in order.
pub open spec fn group_numbers(processes: Seq<ProcessInfo>, group: i32) -> Seq<i32>
    decreases processes.len(),
{
    if processes.len() == 0 {
        Seq::empty()
    } else {
        let before = group_numbers(processes.drop_last(), group);
        if processes.last().pgrp == group {
            before.push(processes.last().pid)
        } else {
            before
        }
    }
}

/// The numbers of the processes of a group, in order.
pub fn group_pids(processes: &Vec<ProcessInfo>, group: i32) -> (r: Vec<i32>)
    ensures
        r@ == group_numbers(processes@, group),
{
    let mut r: Vec<i32> = Vec::new();
    let mut i: usize = 0;
    assert(r@ =~= group_numbers(processes@.take(0), group));
    while i < processes.len()
        invariant
            i <= processes@.len(),
            r@ == group_numbers(processes@.take(i as int), group),
        decreases processes@.len() - i,
    {
        assert(processes@.take(i + 1).drop_last() =~= processes@.take(i as int));
        if processes[i].pgrp == group {
            r.push(processes[i].pid);
        }
        i += 1;
    }
    assert(processes@.take(i as int) =~= processes@);
    r
}

/// The name of the process in the foreground. `attached` holds the processes that are attached
/// to the terminal, where its name is known.
pub fn foreground_process(
    processes: &Vec<ProcessInfo>,
    group: i32,
    attached: &Option<Vec<i32>>,
) -> (r: Option<String>)
    ensures
        match r {
            Some(name) => exists|k: int| #[trigger]
                is_foreground(processes@, group, opt_pids(*attached), k) && processes@[k].name@
                    == name@,
            None => forall|k: int| !(#[trigger] in_group(processes@, group, k)),
        },
{
    let ghost pids: Option<Seq<i32>> = opt_pids(*attached);
    let mut any: bool = false;
    match attached {
        Some(list) => {
            let mut i: usize = 0;
            while i < processes.len()
                invariant
                    i <= processes@.len(),
                    any ==> exists|j: int| #[trigger] is_attached(processes@, group, list@, j),
                    !any ==> forall|j: int|
                        j < i ==> !(#[trigger] is_attached(processes@, group, list@, j)),
                decreases processes@.len() - i,
            {
                if processes[i].pgrp == group && holds_pid(list, processes[i].pid) {
                    assert(is_attached(processes@, group, list@, i as int));
                    any = true;
                }
                i += 1;
            }
        },
        None => {},
    }
    let parents = parents_of(processes);
    let mut best: Option<(usize, usize)> = None;
    let mut i: usize = 0;
    while i < processes.len()
        invariant
            i <= processes@.len(),
            pids == opt_pids(*attached),
            parents@ == parent_map(processes@),
            any ==> attached is Some,
            attached is Some ==> (any <==> exists|j: int| #[trigger]
                is_attached(processes@, group, attached->0@, j)),
            match best {
                None => forall|j: int| j < i ==> !(#[trigger] is_candidate(processes@, group, pids, j)),
                Some((k, dk)) => {
                    &&& k < i
                    &&& is_candidate(processes@, group, pids, k as int)
                    &&& is_depth(parent_map(processes@), processes@[k as int].pid, dk as nat)
                    &&& forall|j: int, dj: nat| #[trigger]
                        is_candidate(processes@, group, pids, j) && j < i && #[trigger] is_depth(
                            parent_map(processes@),
                            processes@[j].pid,
                            dj,
                        ) ==> {
                            &&& !precedes(dk as nat, processes@[k as int].pid, dj, processes@[j].pid)
                            &&& j > k ==> precedes(
                                dj,
                                processes@[j].pid,
                                dk as nat,
                                processes@[k as int].pid,
                            )
                        }
                },
            },
        decreases processes@.len() - i,
    {
        let eligible: bool = processes[i].pgrp == group && (!any || match attached {
            Some(list) => holds_pid(list, processes[i].pid),
            None => false,
        });
        assert(eligible == is_candidate(processes@, group, pids, i as int)) by {
            if attached is Some {
                if !any {
                    assert(forall|j: int| !is_attached(processes@, group, attached->0@, j));
                }
            }
        }
        if eligible {
            let depth: usize = process_depth(processes[i].pid, &parents);
            let better: bool = match best {
                None => true,
                Some((k, dk)) => depth > dk || (depth == dk && processes[i].pid
                    >= processes[k].pid),
            };
            proof {
                assert forall|d: nat|
                    is_depth(parent_map(processes@), processes@[i as int].pid, d) implies d
                    == depth by {
                    law_depth_is_unique(
                        parent_map(processes@),
                        processes@[i as int].pid,
                        d,
                        depth as nat,
                    );
                }
            }
            if better {
                best = Some((i, depth));
            }
        }
        i += 1;
    }
    match best {
        Some((k, dk)) => {
            proof {
                assert forall|j: int, dj: nat, d: nat| #[trigger]
                    is_candidate(processes@, group, pids, j) && #[trigger] is_depth(
                        parent_map(processes@),
                        processes@[j].pid,
                        dj,
                    ) && #[trigger] is_depth(
                        parent_map(processes@),
                        processes@[k as int].pid,
                        d,
                    ) implies {
                    &&& !precedes(d, processes@[k as int].pid, dj, processes@[j].pid)
                    &&& j > k ==> precedes(dj, processes@[j].pid, d, processes@[k as int].pid)
                } by {
                    law_depth_is_unique(
                        parent_map(processes@),
                        processes@[k as int].pid,
                        d,
                        dk as nat,
                    );
                }
                assert(is_foreground(processes@, group, pids, k as int));
            }
            let name = processes[k].name.clone();
            assert(is_foreground(processes@, group, pids, k as int)
                && processes@[k as int].name@ == name@);
            Some(name)
        },
        None => {
            proof {
                assert forall|k: int| !(#[trigger] in_group(processes@, group, k)) by {
                    if in_group(processes@, group, k) {
                        assert(!is_candidate(processes@, group, pids, k));
                        if pids is Some {
                            let j = choose|j: int| #[trigger]
                                is_attached(processes@, group, pids->0, j);
                            assert(is_candidate(processes@, group, pids, j));
                        }
                    }
                }
            }
            None
        },
    }
}

/// A process whose ancestors are all different, up to one without a known parent or whose parent is
/// in the line already, is as deep as there are processes in the line.
pub proof fn law_depth_of_a_line(parents: Map<i32, i32>, line: Seq<i32>)
    requires
        line.len() > 0,
        forall|i: int| 0 <= i < line.len() ==> #[trigger] line[i] > 0,
        forall|i: int, j: int| 0 <= i < j < line.len() ==> line[i] != line[j],
        forall|i: int|
            0 <= i < line.len() - 1 ==> parents.contains_key(#[trigger] line[i])
                && parents[line[i]] == line[i + 1],
        !parents.contains_key(line.last()) || parents[line.last()] <= 0 || line.contains(
            parents[line.last()],
        ),
    ensures
        is_depth(parents, line[0], line.len()),
{
    assert forall|i: nat| i < line.len() implies #[trigger] ancestor(parents, line[0], i) == Some(
        line[i as int],
    ) by {
        lemma_line(parents, line, i);
    }
    let n = line.len();
    assert(climbs(parents, line[0], n));
    assert(ancestor(parents, line[0], (n - 1) as nat) == Some(line.last()));
    assert(!climbs(parents, line[0], n + 1)) by {
        let next = ancestor(parents, line[0], n);
        if climbs(parents, line[0], n + 1) {
            assert(next matches Some(p) && p > 0);
            let m = choose|m: int| 0 <= m < line.len() && line[m] == parents[line.last()];
            assert(ancestor(parents, line[0], m as nat) == next);
        }
    }
}

proof fn lemma_line(parents: Map<i32, i32>, line: Seq<i32>, i: nat)
    requires
        i < line.len(),
        forall|k: int| 0 <= k < line.len() ==> #[trigger] line[k] > 0,
        forall|k: int|
            0 <= k < line.len() - 1 ==> parents.contains_key(#[trigger] line[k])
                && parents[line[k]] == line[k + 1],
    ensures
        ancestor(parents, line[0], i) == Some(line[i as int]),
    decreases i,
{
    if i > 0 {
        lemma_line(parents, line, (i - 1) as nat);
        assert(parents.contains_key(line[i - 1]));
    }
}

/// The process in the foreground belongs to the group. If anybody of the group is known to be
/// attached to the terminal, it is one of those. None of the others that this holds of is deeper,
/// and none that is as deep has a higher number; of equals it is the last.
pub proof fn law_foreground_is_the_deepest(
    processes: Seq<ProcessInfo>,
    group: i32,
    attached: Option<Seq<i32>>,
    k: int,
    j: int,
    dk: nat,
    dj: nat,
)
    requires
        is_foreground(processes, group, attached, k),
        is_depth(parent_map(processes), processes[k].pid, dk),
    ensures
        0 <= k < processes.len(),
        processes[k].pgrp == group,
        attached matches Some(pids) ==> (0 <= j < processes.len() && processes[j].pgrp == group
            && pids.contains(processes[j].pid) ==> pids.contains(processes[k].pid)),
        0 <= j < processes.len() && processes[j].pgrp == group && is_depth(
            parent_map(processes),
            processes[j].pid,
            dj,
        ) && (attached matches Some(pids) ==> pids.contains(processes[j].pid) || !pids.contains(
            processes[k].pid,
        )) ==> dj < dk || (dj == dk && processes[j].pid <= processes[k].pid && (j > k
            ==> processes[j].pid < processes[k].pid)),
{
    if 0 <= j < processes.len() && processes[j].pgrp == group {
        assert(in_group(processes, group, j));
        match attached {
            Some(pids) => {
                if pids.contains(processes[j].pid) {
                    assert(is_attached(processes, group, pids, j));
                    assert(is_candidate(processes, group, attached, j));
                }
                if !pids.contains(processes[k].pid) {
                    assert(is_candidate(processes, group, attached, k));
                    assert(is_candidate(processes, group, attached, j));
                }
            },
            None => {
                assert(is_candidate(processes, group, attached, j));
            },
        }
    }
}

/// The parent of a process is what the latest entry for its number says.
pub proof fn law_parents_are_the_latest(processes: Seq<ProcessInfo>, next: ProcessInfo, pid: i32)
    ensures
        parent_map(processes.push(next)).contains_key(next.pid),
        parent_map(processes.push(next))[next.pid] == next.ppid,
        pid != next.pid ==> (parent_map(processes.push(next)).contains_key(pid) <==> parent_map(
            processes,
        ).contains_key(pid)),
        pid != next.pid && parent_map(processes).contains_key(pid) ==> parent_map(
            processes.push(next),
        )[pid] == parent_map(processes)[pid],
        parent_map(Seq::empty()) == Map::<i32, i32>::empty(),
{
    assert(processes.push(next).drop_last() =~= processes);
}

/// The members of a group are those that say so, in order.
pub proof fn law_group_is_in_order(processes: Seq<ProcessInfo>, next: ProcessInfo, group: i32)
    ensures
        group_numbers(Seq::empty(), group).len() == 0,
        group_numbers(processes.push(next), group) == if next.pgrp == group {
            group_numbers(processes, group).push(next.pid)
        } else {
            group_numbers(processes, group)
        },
{
    assert(processes.push(next).drop_last() =~= processes);
}

/// Behind its name, the status of a process is followed by its parent and then by its group.
pub proof fn law_status_names_the_parent_first(fields: Seq<Seq<char>>, ppid: int, pgrp: int)
    ensures
        stat_numbers(fields) == Some((ppid, pgrp)) <==> fields.len() >= 3 && signed_value(fields[1])
            == Some(ppid) && signed_value(fields[2]) == Some(pgrp),
{
}

/// The name of a process ends at the last closing bracket that a space follows.
pub proof fn law_name_ends_at_the_last_bracket(stat: Seq<char>, i: int, j: int)
    requires
        last_close(stat, i),
    ensures
        0 <= i && i + 1 < stat.len() && stat[i] == ')' && stat[i + 1] == ' ',
        i < j && j + 1 < stat.len() ==> !(stat[j] == ')' && stat[j + 1] == ' '),
{
    if i < j {
        assert(!closes_at(stat, j));
    }
}

/// A process belongs to a group if it is listed with the number of the group.
pub proof fn law_groups_are_as_listed(
    processes: Seq<ProcessInfo>,
    group: i32,
    k: int,
    attached: Option<Vec<i32>>,
)
    ensures
        in_group(processes, group, k) <==> 0 <= k < processes.len() && processes[k].pgrp == group,
        opt_pids(attached) is Some <==> attached is Some,
        attached matches Some(pids) ==> opt_pids(attached) == Some(pids@),
{
}

} // verus!
