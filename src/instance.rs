//! Deciding, from a snapshot of the process table, whether this process may start.
use vstd::prelude::*;

verus! {

/// The exit status of a process that found another instance already running.
pub const DUPLICATE_INSTANCE_EXIT_CODE: i32 = 1;

/// One entry of the operating system's process table.
pub struct ProcessRecord {
    pub pid: u32,
    pub name: String,
}

/// What the start-up check decided.
pub enum InstanceCheck {
    /// No other process carries this process's name: start-up goes on.
    Proceed,
    /// Other processes carry this process's name: start-up stops.
    Terminate { pids: Vec<u32> },
}

/// `p` is another process with exactly the current process's name.
pub open spec fn is_namesake(p: ProcessRecord, current_pid: u32, current_name: Seq<char>) -> bool {
    p.name@ == current_name && p.pid != current_pid
}

/// `pid` belongs to a namesake in `table`.
pub open spec fn is_namesake_pid(
    table: Seq<ProcessRecord>,
    current_pid: u32,
    current_name: Seq<char>,
    pid: u32,
) -> bool {
    exists|i: int|
        0 <= i < table.len() && #[trigger] is_namesake(table[i], current_pid, current_name)
            && table[i].pid == pid
}

/// The pids of the namesakes in `table`, in table order.
pub open spec fn namesake_pids(
    table: Seq<ProcessRecord>,
    current_pid: u32,
    current_name: Seq<char>,
) -> Seq<u32>
    decreases table.len(),
{
    if table.len() == 0 {
        Seq::empty()
    } else {
        let prev = namesake_pids(table.drop_last(), current_pid, current_name);
        if is_namesake(table.last(), current_pid, current_name) {
            prev.push(table.last().pid)
        } else {
            prev
        }
    }
}

/// Every pid listed is a namesake's, and every namesake's pid is listed.
pub proof fn lemma_namesake_pids_exact(
    table: Seq<ProcessRecord>,
    current_pid: u32,
    current_name: Seq<char>,
)
    ensures
        forall|k: int|
            0 <= k < namesake_pids(table, current_pid, current_name).len() ==> is_namesake_pid(
                table,
                current_pid,
                current_name,
                #[trigger] namesake_pids(table, current_pid, current_name)[k],
            ),
        forall|i: int|
            0 <= i < table.len() && #[trigger] is_namesake(table[i], current_pid, current_name)
                ==> namesake_pids(table, current_pid, current_name).contains(table[i].pid),
    decreases table.len(),
{
    if table.len() > 0 {
        let init = table.drop_last();
        lemma_namesake_pids_exact(init, current_pid, current_name);
        let prev = namesake_pids(init, current_pid, current_name);
        let all = namesake_pids(table, current_pid, current_name);
        assert forall|k: int| 0 <= k < all.len() implies is_namesake_pid(
            table,
            current_pid,
            current_name,
            #[trigger] all[k],
        ) by {
            if k < prev.len() {
                let i = choose|i: int|
                    0 <= i < init.len() && #[trigger] is_namesake(init[i], current_pid, current_name)
                        && init[i].pid == prev[k];
                assert(table[i] == init[i]);
            } else {
                assert(is_namesake(table[table.len() - 1], current_pid, current_name));
            }
        }
        assert forall|i: int|
            0 <= i < table.len() && #[trigger] is_namesake(table[i], current_pid, current_name)
            implies all.contains(table[i].pid) by {
            if i < init.len() {
                assert(table[i] == init[i]);
                let k = choose|k: int| 0 <= k < prev.len() && prev[k] == init[i].pid;
                assert(all[k] == prev[k]);
            } else {
                assert(all[all.len() - 1] == table[i].pid);
            }
        }
    }
}

/// With no other process of the same name in the table, start-up goes on.
pub proof fn lemma_no_namesake_proceeds(
    table: Seq<ProcessRecord>,
    current_pid: u32,
    current_name: Seq<char>,
)
    requires
        forall|i: int| 0 <= i < table.len() ==> !is_namesake(#[trigger] table[i], current_pid, current_name),
    ensures
        namesake_pids(table, current_pid, current_name).len() == 0,
{
    lemma_namesake_pids_exact(table, current_pid, current_name);
    let all = namesake_pids(table, current_pid, current_name);
    if all.len() > 0 {
        let i = choose|i: int|
            0 <= i < table.len() && #[trigger] is_namesake(table[i], current_pid, current_name)
                && table[i].pid == all[0];
    }
}

/// With at least one other process of the same name in the table, start-up stops,
/// and that process's pid is among those reported.
pub proof fn lemma_namesake_terminates(
    table: Seq<ProcessRecord>,
    current_pid: u32,
    current_name: Seq<char>,
    i: int,
)
    requires
        0 <= i < table.len(),
        is_namesake(table[i], current_pid, current_name),
    ensures
        namesake_pids(table, current_pid, current_name).len() > 0,
        namesake_pids(table, current_pid, current_name).contains(table[i].pid),
{
    lemma_namesake_pids_exact(table, current_pid, current_name);
}

impl InstanceCheck {
    /// Whether start-up has to stop.
    pub fn must_exit(&self) -> (r: bool)
        ensures
            r == (self is Terminate),
    {
        match self {
            InstanceCheck::Proceed => false,
            InstanceCheck::Terminate { .. } => true,
        }
    }

    /// The status the process exits with: 0 when start-up goes on, otherwise non-zero.
    pub fn exit_code(&self) -> (r: i32)
        ensures
            self is Proceed ==> r == 0,
            self is Terminate ==> r == DUPLICATE_INSTANCE_EXIT_CODE && r != 0,
    {
        match self {
            InstanceCheck::Proceed => 0,
            InstanceCheck::Terminate { .. } => DUPLICATE_INSTANCE_EXIT_CODE,
        }
    }
}

/// Collects the pids of the other processes named exactly like the current one
/// (case-sensitive) and decides whether start-up may go on.
pub fn ensure_single_instance(
    table: &Vec<ProcessRecord>,
    current_pid: u32,
    current_name: &String,
) -> (r: InstanceCheck)
    ensures
        r is Proceed <==> namesake_pids(table@, current_pid, current_name@).len() == 0,
        match r {
            InstanceCheck::Terminate { pids } => pids@ == namesake_pids(
                table@,
                current_pid,
                current_name@,
            ),
            InstanceCheck::Proceed => true,
        },
{
    let mut pids: Vec<u32> = Vec::new();
    let mut i: usize = 0;
    while i < table.len()
        invariant
            i <= table.len(),
            pids@ == namesake_pids(table@.subrange(0, i as int), current_pid, current_name@),
        decreases table.len() - i,
    {
        let p = &table[i];
        proof {
            assert(table@.subrange(0, i + 1).drop_last() =~= table@.subrange(0, i as int));
        }
        if p.pid != current_pid && p.name == *current_name {
            pids.push(p.pid);
        }
        i = i + 1;
    }
    proof {
        assert(table@.subrange(0, table@.len() as int) =~= table@);
    }
    if pids.len() == 0 {
        InstanceCheck::Proceed
    } else {
        InstanceCheck::Terminate { pids }
    }
}

} // verus!
